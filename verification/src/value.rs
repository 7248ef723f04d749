//! Value kinds and the values that travel in rows.

use vstd::prelude::*;

verus! {

/// The kind of value a column holds.
#[derive(Clone, Copy, Debug, PartialEq, Eq, Structural)]
pub enum ValueKind {
    UInt64,
    Text,
    Bool,
    /// A kind the wire format cannot carry. Columns of this kind cannot be registered.
    Opaque,
}

impl ValueKind {
    /// Whether the wire format can carry values of this kind.
    pub open spec fn encodable(self) -> bool {
        self != ValueKind::Opaque
    }

    pub fn has_wire_encoding(self) -> (b: bool)
        ensures
            b == self.encodable(),
    {
        match self {
            ValueKind::Opaque => false,
            _ => true,
        }
    }
}

/// The mathematical content of a [`Value`].
pub enum ValueModel {
    UInt64(u64),
    Text(Seq<char>),
    Bool(bool),
}

impl ValueModel {
    pub open spec fn kind(self) -> ValueKind {
        match self {
            ValueModel::UInt64(_) => ValueKind::UInt64,
            ValueModel::Text(_) => ValueKind::Text,
            ValueModel::Bool(_) => ValueKind::Bool,
        }
    }
}

/// The value an unfetched field of the given kind holds: zero, the empty
/// text, or `false`.
pub open spec fn default_model(kind: ValueKind) -> ValueModel {
    match kind {
        ValueKind::UInt64 => ValueModel::UInt64(0),
        ValueKind::Text => ValueModel::Text(Seq::empty()),
        _ => ValueModel::Bool(false),
    }
}

/// One field value of a row.
#[derive(Debug, PartialEq, Eq)]
pub enum Value {
    UInt64(u64),
    Text(String),
    Bool(bool),
}

impl View for Value {
    type V = ValueModel;

    open spec fn view(&self) -> ValueModel {
        match *self {
            Value::UInt64(n) => ValueModel::UInt64(n),
            Value::Text(s) => ValueModel::Text(s@),
            Value::Bool(b) => ValueModel::Bool(b),
        }
    }
}

impl Clone for Value {
    fn clone(&self) -> (res: Value)
        ensures
            res@ == self@,
    {
        match self {
            Value::UInt64(n) => Value::UInt64(*n),
            Value::Text(s) => Value::Text(s.clone()),
            Value::Bool(b) => Value::Bool(*b),
        }
    }
}

impl Value {
    pub fn kind(&self) -> (k: ValueKind)
        ensures
            k == self@.kind(),
    {
        match self {
            Value::UInt64(_) => ValueKind::UInt64,
            Value::Text(_) => ValueKind::Text,
            Value::Bool(_) => ValueKind::Bool,
        }
    }

    /// The default of a kind. An unencodable kind has no values at all.
    pub fn default_for(kind: ValueKind) -> (res: Option<Value>)
        ensures
            res.is_some() == kind.encodable(),
            res.is_some() ==> res.unwrap()@ == default_model(kind),
    {
        match kind {
            ValueKind::UInt64 => Some(Value::UInt64(0)),
            ValueKind::Text => Some(Value::Text(String::new())),
            ValueKind::Bool => Some(Value::Bool(false)),
            ValueKind::Opaque => None,
        }
    }
}

/// The contents of a sequence of values.
pub open spec fn values_model(s: Seq<Value>) -> Seq<ValueModel> {
    Seq::new(s.len(), |i: int| s[i]@)
}

/// Whether `row` holds exactly one value of each kind in `kinds`, in order.
pub open spec fn kinds_match(kinds: Seq<ValueKind>, row: Seq<ValueModel>) -> bool {
    &&& kinds.len() == row.len()
    &&& forall|i: int| 0 <= i < row.len() ==> (#[trigger] row[i]).kind() == kinds[i]
}

/// Copies a sequence of values.
pub fn clone_values(values: &Vec<Value>) -> (res: Vec<Value>)
    ensures
        values_model(res@) == values_model(values@),
{
    let mut out: Vec<Value> = Vec::new();
    let mut i: usize = 0;
    while i < values.len()
        invariant
            i <= values.len(),
            out.len() == i,
            forall|j: int| 0 <= j < i ==> out[j]@ == values[j]@,
        decreases values.len() - i,
    {
        out.push(values[i].clone());
        i += 1;
    }
    assert(values_model(out@) =~= values_model(values@));
    out
}

} // verus!
