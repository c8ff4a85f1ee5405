//! Shape synthesis: the companion records of a table mapping (the insert
//! payload, the update payload and the primary key), as lists of fields of
//! the canonical record.
use vstd::prelude::*;
use crate::metadata::{TableMetadata, TableModel};
use crate::query::{Role, fields_in};

verus! {

/// One field of a companion record: the index of the canonical field it
/// copies, and whether it is typed as `Defaultable<T>` rather than `T`.
#[derive(Debug, Clone, Copy, PartialEq, Eq, Structural)]
pub struct ShapeField {
    pub field: usize,
    pub defaultable: bool,
}

/// A companion record: its name and its fields, in declaration order. Each
/// field keeps the name, type and visibility of the canonical field.
pub struct Shape {
    pub name: String,
    pub fields: Vec<ShapeField>,
}

/// The fields at `idx`; default-capable ones are wrapped where `wrap` holds.
pub open spec fn shape_fields(m: TableModel, idx: Seq<usize>, wrap: bool) -> Seq<ShapeField> {
    Seq::new(
        idx.len(),
        |j: int| ShapeField { field: idx[j], defaultable: wrap && m.fields[idx[j] as int].default },
    )
}

/// `Insertable<Name>`.
pub open spec fn insertable_name(m: TableModel) -> Seq<char> {
    "Insertable"@ + m.ident
}

/// `Updatable<Name>`.
pub open spec fn updatable_name(m: TableModel) -> Seq<char> {
    "Updatable"@ + m.ident
}

/// `<Name>Pk`.
pub open spec fn pk_name(m: TableModel) -> Seq<char> {
    m.ident + "Pk"@
}

impl TableMetadata {
    /// The fields at `idx`; default-capable ones are wrapped where `wrap` holds.
    fn shape_fields(&self, idx: &Vec<usize>, wrap: bool) -> (r: Vec<ShapeField>)
        requires
            forall|j: int| 0 <= j < idx@.len() ==> (#[trigger] idx@[j]) < self.fields@.len(),
        ensures
            r@ == shape_fields(self@, idx@, wrap),
    {
        let mut r: Vec<ShapeField> = Vec::new();
        let mut j: usize = 0;
        while j < idx.len()
            invariant
                j <= idx@.len(),
                r@.len() == j,
                forall|k: int| 0 <= k < idx@.len() ==> (#[trigger] idx@[k]) < self.fields@.len(),
                forall|k: int|
                    0 <= k < j ==> #[trigger] r@[k] == (ShapeField {
                        field: idx@[k],
                        defaultable: wrap && self.fields@[idx@[k] as int].is_default_capable,
                    }),
            decreases idx@.len() - j,
        {
            let i = idx[j];
            r.push(ShapeField { field: i, defaultable: wrap && self.fields[i].is_default_capable });
            j = j + 1;
        }
        assert(r@ =~= shape_fields(self@, idx@, wrap));
        r
    }

    /// The insert payload: every field that the store does not generate,
    /// default-capable ones wrapped. Without such fields it has no field.
    pub fn insertable_shape(&self) -> (r: Shape)
        ensures
            r.name@ == insertable_name(self@),
            r.fields@ == shape_fields(self@, fields_in(self@, Role::Insertable), true),
    {
        let idx = self.fields_in(Role::Insertable);
        let mut name = String::from_str("Insertable");
        name.append(self.ident.as_str());
        Shape { name, fields: self.shape_fields(&idx, true) }
    }

    /// The update payload: the keys and the settable fields. There is none
    /// when no field is settable.
    pub fn updatable_shape(&self) -> (r: Option<Shape>)
        ensures
            r is None <==> fields_in(self@, Role::Settable).len() == 0,
            r is Some ==> r->Some_0.name@ == updatable_name(self@) && r->Some_0.fields@
                == shape_fields(self@, fields_in(self@, Role::Updatable), false),
    {
        let sets = self.fields_in(Role::Settable);
        if sets.len() == 0 {
            return None;
        }
        let idx = self.fields_in(Role::Updatable);
        let mut name = String::from_str("Updatable");
        name.append(self.ident.as_str());
        Some(Shape { name, fields: self.shape_fields(&idx, false) })
    }

    /// The primary key: the key fields, in declaration order.
    pub fn pk_shape(&self) -> (r: Shape)
        ensures
            r.name@ == pk_name(self@),
            r.fields@ == shape_fields(self@, fields_in(self@, Role::Key), false),
    {
        let idx = self.fields_in(Role::Key);
        let mut name = self.ident.clone();
        name.append("Pk");
        Shape { name, fields: self.shape_fields(&idx, false) }
    }
}

} // verus!
