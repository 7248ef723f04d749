//! Column descriptors, registry entries and the registry of record shapes.

use vstd::prelude::*;
use crate::error::{DatabaseError, SchemaError};
use crate::value::ValueKind;

verus! {

/// The content of a [`ColumnDescriptor`].
pub struct ColumnModel {
    pub name: Seq<char>,
    pub kind: ValueKind,
}

/// One field of a record shape: its name and the kind of value it holds.
#[derive(Debug, PartialEq, Eq)]
pub struct ColumnDescriptor {
    pub name: String,
    pub kind: ValueKind,
}

impl View for ColumnDescriptor {
    type V = ColumnModel;

    open spec fn view(&self) -> ColumnModel {
        ColumnModel { name: self.name@, kind: self.kind }
    }
}

impl Clone for ColumnDescriptor {
    fn clone(&self) -> (res: ColumnDescriptor)
        ensures
            res@ == self@,
    {
        ColumnDescriptor { name: self.name.clone(), kind: self.kind }
    }
}

impl ColumnDescriptor {
    pub fn new(name: String, kind: ValueKind) -> (res: ColumnDescriptor)
        ensures
            res@ == (ColumnModel { name: name@, kind }),
    {
        ColumnDescriptor { name, kind }
    }
}

/// The content of a [`ColumnRef`].
pub struct ColumnRefModel {
    pub table_name: Seq<char>,
    pub column_name: Seq<char>,
    pub kind: ValueKind,
}

/// A reference to one column of one table. It means nothing against any
/// other table's entry.
#[derive(Debug, PartialEq, Eq)]
pub struct ColumnRef {
    pub table_name: String,
    pub column_name: String,
    pub kind: ValueKind,
}

impl View for ColumnRef {
    type V = ColumnRefModel;

    open spec fn view(&self) -> ColumnRefModel {
        ColumnRefModel {
            table_name: self.table_name@,
            column_name: self.column_name@,
            kind: self.kind,
        }
    }
}

impl Clone for ColumnRef {
    fn clone(&self) -> (res: ColumnRef)
        ensures
            res@ == self@,
    {
        ColumnRef {
            table_name: self.table_name.clone(),
            column_name: self.column_name.clone(),
            kind: self.kind,
        }
    }
}

/// The content of a [`RegistryEntry`]: a table name and its columns in
/// declaration order.
pub struct EntryModel {
    pub table_name: Seq<char>,
    pub columns: Seq<ColumnModel>,
}

impl EntryModel {
    /// Every column has a kind the wire format can carry.
    pub open spec fn supported(self) -> bool {
        forall|i: int| 0 <= i < self.columns.len() ==> (#[trigger] self.columns[i]).kind.encodable()
    }

    /// The kinds of the columns, in declaration order.
    pub open spec fn kinds(self) -> Seq<ValueKind> {
        Seq::new(self.columns.len(), |i: int| self.columns[i].kind)
    }

    /// `i` is the position of the first column called `name`.
    pub open spec fn first_named(self, name: Seq<char>, i: int) -> bool {
        &&& 0 <= i < self.columns.len()
        &&& self.columns[i].name == name
        &&& forall|j: int| 0 <= j < i ==> (#[trigger] self.columns[j]).name != name
    }

    /// `col` refers to the column at position `i` of this entry.
    pub open spec fn owns(self, col: ColumnRefModel, i: int) -> bool {
        &&& col.table_name == self.table_name
        &&& self.first_named(col.column_name, i)
        &&& self.columns[i].kind == col.kind
    }

    /// `col` refers to some column of this entry.
    pub open spec fn has(self, col: ColumnRefModel) -> bool {
        exists|i: int| self.owns(col, i)
    }
}

/// The stored description of one record shape.
#[derive(Debug, PartialEq, Eq)]
pub struct RegistryEntry {
    pub table_name: String,
    pub columns: Vec<ColumnDescriptor>,
}

impl View for RegistryEntry {
    type V = EntryModel;

    open spec fn view(&self) -> EntryModel {
        EntryModel {
            table_name: self.table_name@,
            columns: Seq::new(self.columns.len() as nat, |i: int| self.columns[i]@),
        }
    }
}

impl Clone for RegistryEntry {
    fn clone(&self) -> (res: RegistryEntry)
        ensures
            res@ == self@,
    {
        let mut columns: Vec<ColumnDescriptor> = Vec::new();
        let mut i: usize = 0;
        while i < self.columns.len()
            invariant
                i <= self.columns.len(),
                columns.len() == i,
                forall|j: int| 0 <= j < i ==> columns[j]@ == self.columns[j]@,
            decreases self.columns.len() - i,
        {
            columns.push(self.columns[i].clone());
            i += 1;
        }
        let res = RegistryEntry { table_name: self.table_name.clone(), columns };
        assert(res@.columns =~= self@.columns);
        res
    }
}

impl RegistryEntry {
    /// Declares a record shape: a table name and its columns in order.
    pub fn new(table_name: String, columns: Vec<ColumnDescriptor>) -> (res: RegistryEntry)
        ensures
            res.table_name == table_name,
            res.columns == columns,
    {
        RegistryEntry { table_name, columns }
    }

    /// Whether every column can be carried on the wire.
    pub fn is_supported(&self) -> (b: bool)
        ensures
            b == self@.supported(),
    {
        let mut i: usize = 0;
        while i < self.columns.len()
            invariant
                i <= self.columns.len(),
                forall|j: int| 0 <= j < i ==> (#[trigger] self@.columns[j]).kind.encodable(),
            decreases self.columns.len() - i,
        {
            if !self.columns[i].kind.has_wire_encoding() {
                assert(!self@.columns[i as int].kind.encodable());
                return false;
            }
            i += 1;
        }
        true
    }

    /// The position of the first column called `name`, if there is one.
    pub fn position(&self, name: &String) -> (res: Option<usize>)
        ensures
            match res {
                Some(i) => self@.first_named(name@, i as int),
                None => forall|j: int|
                    0 <= j < self@.columns.len() ==> (#[trigger] self@.columns[j]).name != name@,
            },
    {
        let mut i: usize = 0;
        while i < self.columns.len()
            invariant
                i <= self.columns.len(),
                forall|j: int| 0 <= j < i ==> (#[trigger] self@.columns[j]).name != name@,
            decreases self.columns.len() - i,
        {
            if self.columns[i].name == *name {
                assert(self@.columns[i as int].name == name@);
                return Some(i);
            }
            assert(self@.columns[i as int].name != name@);
            i += 1;
        }
        None
    }

    /// The accessor for the field called `name`: a reference to that column
    /// of this table, or `None` where the shape has no such field.
    pub fn column(&self, name: &String) -> (res: Option<ColumnRef>)
        ensures
            match res {
                Some(c) => {
                    &&& c@.table_name == self@.table_name
                    &&& c@.column_name == name@
                    &&& self@.has(c@)
                },
                None => forall|j: int|
                    0 <= j < self@.columns.len() ==> (#[trigger] self@.columns[j]).name != name@,
            },
    {
        match self.position(name) {
            Some(i) => {
                let c = ColumnRef {
                    table_name: self.table_name.clone(),
                    column_name: name.clone(),
                    kind: self.columns[i].kind,
                };
                assert(self@.owns(c@, i as int));
                Some(c)
            },
            None => None,
        }
    }

    /// Resolves a column reference to its position in this entry. A reference
    /// made for another table, or one naming a field this shape does not
    /// have with that kind, is a `ColumnMismatch`.
    pub fn locate(&self, col: &ColumnRef) -> (res: Result<usize, DatabaseError>)
        ensures
            match res {
                Ok(i) => self@.owns(col@, i as int),
                Err(e) => e == DatabaseError::ColumnMismatch && !self@.has(col@),
            },
    {
        if !(col.table_name == self.table_name) {
            return Err(DatabaseError::ColumnMismatch);
        }
        match self.position(&col.column_name) {
            Some(i) => {
                if self.columns[i].kind == col.kind {
                    Ok(i)
                } else {
                    proof {
                        lemma_first_named_unique(self@, col@.column_name, i as int);
                    }
                    Err(DatabaseError::ColumnMismatch)
                }
            },
            None => Err(DatabaseError::ColumnMismatch),
        }
    }
}

/// A name has at most one first position.
pub proof fn lemma_first_named_unique(e: EntryModel, name: Seq<char>, i: int)
    requires
        e.first_named(name, i),
    ensures
        forall|j: int| e.first_named(name, j) ==> j == i,
{
    assert forall|j: int| e.first_named(name, j) implies j == i by {
        if j < i {
            assert(e.columns[j].name != name);
        } else if i < j {
            assert(e.columns[i].name != name);
        }
    }
}

/// Some entry of `r` describes the table called `name`.
pub open spec fn has_table(r: Seq<EntryModel>, name: Seq<char>) -> bool {
    exists|i: int| 0 <= i < r.len() && (#[trigger] r[i]).table_name == name
}

/// A registry holds supported entries only, and no table name twice.
pub open spec fn registry_wf(r: Seq<EntryModel>) -> bool {
    &&& forall|i: int| 0 <= i < r.len() ==> (#[trigger] r[i]).supported()
    &&& forall|i: int, j: int|
        0 <= i < j < r.len() ==> (#[trigger] r[i]).table_name != (#[trigger] r[j]).table_name
}

/// What registering `e` in `r` gives: the registry with `e` appended, or the
/// reason it is refused. A taken table name is reported before anything else.
pub open spec fn register_model(r: Seq<EntryModel>, e: EntryModel) -> Result<
    Seq<EntryModel>,
    SchemaError,
> {
    if has_table(r, e.table_name) {
        Err(SchemaError::DuplicateTable)
    } else if !e.supported() {
        Err(SchemaError::UnsupportedType)
    } else {
        Ok(r.push(e))
    }
}

/// The record shapes known to the process, in registration order.
#[derive(Debug)]
pub struct Registry {
    pub entries: Vec<RegistryEntry>,
}

impl View for Registry {
    type V = Seq<EntryModel>;

    open spec fn view(&self) -> Seq<EntryModel> {
        Seq::new(self.entries.len() as nat, |i: int| self.entries[i]@)
    }
}

impl Registry {
    pub open spec fn wf(&self) -> bool {
        registry_wf(self@)
    }

    /// An empty registry. No connection is needed to make or fill one.
    pub fn new() -> (res: Registry)
        ensures
            res@ == Seq::<EntryModel>::empty(),
            res.wf(),
    {
        let res = Registry { entries: Vec::new() };
        assert(res@ =~= Seq::<EntryModel>::empty());
        res
    }

    /// The number of registered tables.
    pub fn len(&self) -> (n: usize)
        ensures
            n == self@.len(),
    {
        self.entries.len()
    }

    /// The position of the entry for `table`, if it is registered.
    pub fn find(&self, table: &String) -> (res: Option<usize>)
        ensures
            match res {
                Some(i) => {
                    &&& i < self@.len()
                    &&& self@[i as int].table_name == table@
                    &&& forall|j: int| 0 <= j < i ==> (#[trigger] self@[j]).table_name != table@
                },
                None => !has_table(self@, table@),
            },
    {
        let mut i: usize = 0;
        while i < self.entries.len()
            invariant
                i <= self.entries.len(),
                forall|j: int| 0 <= j < i ==> (#[trigger] self@[j]).table_name != table@,
            decreases self.entries.len() - i,
        {
            if self.entries[i].table_name == *table {
                assert(self@[i as int].table_name == table@);
                return Some(i);
            }
            assert(self@[i as int].table_name != table@);
            i += 1;
        }
        None
    }

    /// The entry registered for `table`, read-only.
    pub fn lookup(&self, table: &String) -> (res: Option<&RegistryEntry>)
        ensures
            res.is_some() == has_table(self@, table@),
            res.is_some() ==> self@.contains(res.unwrap()@) && res.unwrap()@.table_name == table@,
            res.is_some() && self.wf() ==> res.unwrap()@.supported(),
    {
        match self.find(table) {
            Some(i) => {
                assert(self@[i as int] == self.entries[i as int]@);
                Some(&self.entries[i])
            },
            None => None,
        }
    }

    /// Registers a record shape. A second registration of a table name is an
    /// error and changes nothing; so is a shape with an unencodable column.
    pub fn register(&mut self, entry: RegistryEntry) -> (res: Result<(), SchemaError>)
        requires
            old(self).wf(),
        ensures
            final(self).wf(),
            match register_model(old(self)@, entry@) {
                Ok(r) => res.is_ok() && final(self)@ == r,
                Err(e) => res == Err::<(), SchemaError>(e) && final(self)@ == old(self)@,
            },
    {
        if self.find(&entry.table_name).is_some() {
            return Err(SchemaError::DuplicateTable);
        }
        if !entry.is_supported() {
            return Err(SchemaError::UnsupportedType);
        }
        let ghost before = self@;
        let ghost e = entry@;
        self.entries.push(entry);
        assert(self@ =~= before.push(e));
        Ok(())
    }
}

/// Registering a table puts its entry last and keeps every earlier entry;
/// registering it again is refused as a duplicate, which by the definition
/// of `register_model` leaves the registry as it was.
pub proof fn law_second_registration_is_duplicate(r: Seq<EntryModel>, e: EntryModel)
    ensures
        has_table(r, e.table_name) ==> register_model(r, e) == Err::<Seq<EntryModel>, SchemaError>(
            SchemaError::DuplicateTable,
        ),
        register_model(r, e) matches Ok(r2) ==> {
            &&& r2.len() == r.len() + 1
            &&& r2[r.len() as int] == e
            &&& forall|i: int| 0 <= i < r.len() ==> r2[i] == r[i]
            &&& register_model(r2, e) == Err::<Seq<EntryModel>, SchemaError>(
                SchemaError::DuplicateTable,
            )
            &&& (registry_wf(r) ==> registry_wf(r2))
        },
{
    if let Ok(r2) = register_model(r, e) {
        assert(r2[r.len() as int].table_name == e.table_name);
        assert(has_table(r2, e.table_name));
    }
}

} // verus!
