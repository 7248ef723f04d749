//! Projections: the ordered set of columns a query asks for, and its
//! resolution to column positions of one registry entry.

use vstd::prelude::*;
use crate::error::DatabaseError;
use crate::schema::{ColumnRef, ColumnRefModel, EntryModel, RegistryEntry, lemma_first_named_unique};

verus! {

/// The content of a [`Projection`].
pub struct ProjectionModel {
    pub table_name: Seq<char>,
    pub columns: Seq<ColumnRefModel>,
}

impl ProjectionModel {
    /// Some chosen column is called `name`.
    pub open spec fn names(self, name: Seq<char>) -> bool {
        exists|k: int| 0 <= k < self.columns.len() && (#[trigger] self.columns[k]).column_name == name
    }

    /// No column name is chosen twice.
    pub open spec fn distinct(self) -> bool {
        forall|a: int, b: int|
            0 <= a < b < self.columns.len() ==> (#[trigger] self.columns[a]).column_name != (
            #[trigger] self.columns[b]).column_name
    }
}

/// Every chosen column belongs to the entry, and so does the projection.
pub open spec fn resolvable(e: EntryModel, p: ProjectionModel) -> bool {
    &&& p.table_name == e.table_name
    &&& forall|k: int| 0 <= k < p.columns.len() ==> e.has(#[trigger] p.columns[k])
}

/// `pos` lists the positions the projection selects, in the order they are
/// sent: those of the chosen columns, or every position where none is chosen.
pub open spec fn resolution(e: EntryModel, p: ProjectionModel, pos: Seq<usize>) -> bool {
    &&& p.table_name == e.table_name
    &&& if p.columns.len() == 0 {
        &&& pos.len() == e.columns.len()
        &&& forall|i: int| 0 <= i < pos.len() ==> pos[i] == i
    } else {
        &&& pos.len() == p.columns.len()
        &&& forall|k: int| 0 <= k < pos.len() ==> e.owns(#[trigger] p.columns[k], pos[k] as int)
    }
}

/// Positions below `n`, none of them twice.
pub open spec fn positions_wf(pos: Seq<usize>, n: nat) -> bool {
    &&& forall|k: int| 0 <= k < pos.len() ==> pos[k] < n
    &&& forall|a: int, b: int| 0 <= a < b < pos.len() ==> pos[a] != pos[b]
}

/// The columns chosen for a query on one table, in the order chosen.
#[derive(Debug, PartialEq, Eq)]
pub struct Projection {
    pub table_name: String,
    pub columns: Vec<ColumnRef>,
}

impl View for Projection {
    type V = ProjectionModel;

    open spec fn view(&self) -> ProjectionModel {
        ProjectionModel {
            table_name: self.table_name@,
            columns: Seq::new(self.columns.len() as nat, |i: int| self.columns[i]@),
        }
    }
}

/// A projection resolved against its entry: what a query sends and decodes by.
#[derive(Debug, PartialEq, Eq)]
pub struct Selection {
    pub entry: RegistryEntry,
    pub positions: Vec<usize>,
}

impl Selection {
    pub open spec fn wf(&self) -> bool {
        &&& self.entry@.supported()
        &&& positions_wf(self.positions@, self.entry@.columns.len())
    }
}

impl Projection {
    pub open spec fn wf(&self) -> bool {
        self@.distinct()
    }

    /// The empty projection on a table. Left empty, it selects every column.
    pub fn selected(table_name: String) -> (res: Projection)
        ensures
            res.wf(),
            res@.table_name == table_name@,
            res@.columns == Seq::<ColumnRefModel>::empty(),
    {
        let res = Projection { table_name, columns: Vec::new() };
        assert(res@.columns =~= Seq::<ColumnRefModel>::empty());
        res
    }

    /// The number of columns chosen so far.
    pub fn len(&self) -> (n: usize)
        ensures
            n == self@.columns.len(),
    {
        self.columns.len()
    }

    /// Whether a column called `name` is already chosen.
    pub fn chooses(&self, name: &String) -> (b: bool)
        ensures
            b == self@.names(name@),
    {
        let mut i: usize = 0;
        while i < self.columns.len()
            invariant
                i <= self.columns.len(),
                forall|k: int| 0 <= k < i ==> (#[trigger] self@.columns[k]).column_name != name@,
            decreases self.columns.len() - i,
        {
            if self.columns[i].column_name == *name {
                assert(self@.columns[i as int].column_name == name@);
                return true;
            }
            assert(self@.columns[i as int].column_name != name@);
            i += 1;
        }
        false
    }

    /// Appends a column to the projection. Choosing a name that is already
    /// chosen changes nothing.
    pub fn column(self, col: ColumnRef) -> (res: Projection)
        requires
            self.wf(),
        ensures
            res.wf(),
            res@.table_name == self@.table_name,
            res@.columns == (if self@.names(col@.column_name) {
                self@.columns
            } else {
                self@.columns.push(col@)
            }),
    {
        if self.chooses(&col.column_name) {
            return self;
        }
        let ghost before = self@;
        let ghost c = col@;
        let mut res = self;
        res.columns.push(col);
        assert(res@.columns =~= before.columns.push(c));
        assert forall|a: int, b: int| 0 <= a < b < res@.columns.len() implies (
        #[trigger] res@.columns[a]).column_name != (#[trigger] res@.columns[b]).column_name by {
            if b < before.columns.len() {
                assert(before.columns[a].column_name != before.columns[b].column_name);
            } else {
                assert(before.columns[a].column_name != c.column_name);
            }
        }
        res
    }

    /// Resolves the projection against the entry of its table. A projection
    /// made for another table, or holding a column the entry does not own, is
    /// a `ColumnMismatch`.
    pub fn resolve(&self, entry: &RegistryEntry) -> (res: Result<Selection, DatabaseError>)
        requires
            self.wf(),
            entry@.supported(),
        ensures
            match res {
                Ok(sel) => {
                    &&& sel.wf()
                    &&& sel.entry@ == entry@
                    &&& resolution(entry@, self@, sel.positions@)
                },
                Err(e) => e == DatabaseError::ColumnMismatch && !resolvable(entry@, self@),
            },
    {
        if !(self.table_name == entry.table_name) {
            return Err(DatabaseError::ColumnMismatch);
        }
        let mut positions: Vec<usize> = Vec::new();
        if self.columns.len() == 0 {
            let mut i: usize = 0;
            while i < entry.columns.len()
                invariant
                    i <= entry.columns.len(),
                    positions.len() == i,
                    forall|j: int| 0 <= j < i ==> positions[j] == j,
                decreases entry.columns.len() - i,
            {
                positions.push(i);
                i += 1;
            }
            return Ok(Selection { entry: entry.clone(), positions });
        }
        let mut k: usize = 0;
        while k < self.columns.len()
            invariant
                k <= self.columns.len(),
                positions.len() == k,
                self@.table_name == entry@.table_name,
                forall|j: int|
                    0 <= j < k ==> entry@.owns(#[trigger] self@.columns[j], positions[j] as int),
            decreases self.columns.len() - k,
        {
            match entry.locate(&self.columns[k]) {
                Ok(i) => {
                    assert(self@.columns[k as int] == self.columns[k as int]@);
                    positions.push(i);
                },
                Err(_) => {
                    assert(!entry@.has(self@.columns[k as int]));
                    return Err(DatabaseError::ColumnMismatch);
                },
            }
            k += 1;
        }
        proof {
            lemma_resolution_is_well_formed(entry@, self@, positions@);
        }
        Ok(Selection { entry: entry.clone(), positions })
    }
}

/// The positions a projection without repeated names resolves to are in
/// range and pairwise different.
pub proof fn lemma_resolution_is_well_formed(e: EntryModel, p: ProjectionModel, pos: Seq<usize>)
    requires
        p.distinct(),
        resolution(e, p, pos),
    ensures
        positions_wf(pos, e.columns.len()),
{
    if p.columns.len() != 0 {
        assert forall|k: int| 0 <= k < pos.len() implies pos[k] < e.columns.len() by {
            assert(e.owns(p.columns[k], pos[k] as int));
        }
        assert forall|a: int, b: int| 0 <= a < b < pos.len() implies pos[a] != pos[b] by {
            assert(e.owns(p.columns[a], pos[a] as int));
            assert(e.owns(p.columns[b], pos[b] as int));
            assert(p.columns[a].column_name != p.columns[b].column_name);
        }
    }
}

/// A projection resolves to at most one list of positions.
pub proof fn law_resolution_is_unique(
    e: EntryModel,
    p: ProjectionModel,
    pos: Seq<usize>,
    other: Seq<usize>,
)
    requires
        resolution(e, p, pos),
        resolution(e, p, other),
    ensures
        pos == other,
{
    assert forall|k: int| 0 <= k < pos.len() implies pos[k] == other[k] by {
        if p.columns.len() != 0 {
            assert(e.owns(p.columns[k], pos[k] as int));
            assert(e.owns(p.columns[k], other[k] as int));
            lemma_first_named_unique(e, p.columns[k].column_name, pos[k] as int);
        }
    }
    assert(pos =~= other);
}

/// Where an entry's column names are all different, the empty projection
/// and the projection that names every column in order select the same
/// positions: every one, in column order.
pub proof fn law_empty_projection_is_exhaustive(
    e: EntryModel,
    none: ProjectionModel,
    every: ProjectionModel,
    pos_none: Seq<usize>,
    pos_every: Seq<usize>,
)
    requires
        forall|a: int, b: int|
            0 <= a < b < e.columns.len() ==> (#[trigger] e.columns[a]).name != (
            #[trigger] e.columns[b]).name,
        none.columns.len() == 0,
        every.columns.len() == e.columns.len(),
        forall|k: int|
            0 <= k < every.columns.len() ==> (#[trigger] every.columns[k]).column_name
                == e.columns[k].name,
        resolution(e, none, pos_none),
        resolution(e, every, pos_every),
    ensures
        pos_none == pos_every,
{
    assert forall|k: int| 0 <= k < pos_none.len() implies pos_none[k] == pos_every[k] by {
        assert(e.owns(every.columns[k], pos_every[k] as int));
        let i = pos_every[k] as int;
        assert(e.columns[i].name == e.columns[k].name);
        if i < k {
            assert(e.columns[i].name != e.columns[k].name);
        } else if k < i {
            assert(e.columns[k].name != e.columns[i].name);
        }
    }
    assert(pos_none =~= pos_every);
}

} // verus!
