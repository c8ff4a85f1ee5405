//! The metadata model: a record declaration, already split into fields and
//! options, is checked and normalised into a `TableMetadata` once; every
//! generator reads that value and nothing changes it afterwards.
use vstd::prelude::*;

verus! {

/// One field of a record declaration as the front end hands it over.
/// `ident` is `None` for a positional (tuple-like) field.
pub struct RawField {
    pub ident: Option<String>,
    pub vis: String,
    pub ty: String,
    pub pk: bool,
    pub generated: bool,
    pub default: bool,
    pub deref: bool,
    pub cast: Option<String>,
}

/// A record declaration with its options. `fields` is `None` where the
/// declaration is not a struct at all (an enum or a union).
pub struct RawDeclaration {
    pub ident: String,
    pub vis: String,
    pub fields: Option<Vec<RawField>>,
    pub table: Option<String>,
    pub soft_delete: Option<String>,
}

/// Why a declaration cannot be mapped to a table.
#[derive(Debug, Clone, Copy, PartialEq, Eq, Structural)]
pub enum MetadataError {
    /// Not a struct with named fields, or a struct without fields.
    InvalidApplication,
    /// No (or an empty) table name was given.
    MissingTableName,
    /// Two fields carry the same name.
    DuplicateField,
    /// The soft-delete column names no field of the record.
    DanglingSoftDeleteReference,
    /// No field is marked as primary key.
    MissingPrimaryKey,
}

impl MetadataError {
    /// A message for the user of the generator.
    pub fn message(&self) -> (r: &'static str) {
        match self {
            MetadataError::InvalidApplication => {
                "The `Entity` macro can only be applied to a struct with named fields"
            },
            MetadataError::MissingTableName => "The `Entity` macro needs a non-empty `table` option",
            MetadataError::DuplicateField => "Every field of an `Entity` needs a distinct name",
            MetadataError::DanglingSoftDeleteReference => {
                "The `soft_delete` option must name a field of the struct"
            },
            MetadataError::MissingPrimaryKey => {
                "At least one field of an `Entity` must be marked `pk`"
            },
        }
    }
}

/// One field of a validated record.
pub struct FieldSpec {
    pub name: String,
    /// The declared type, as source text.
    pub ty: String,
    /// The declared visibility, as source text (empty for private).
    pub vis: String,
    pub is_primary_key: bool,
    pub is_generated: bool,
    pub is_default_capable: bool,
    pub needs_dereference: bool,
    /// The type that binds and projections coerce this column to.
    pub cast: Option<String>,
}

/// The mathematical value of a `FieldSpec`.
pub struct FieldModel {
    pub name: Seq<char>,
    pub ty: Seq<char>,
    pub vis: Seq<char>,
    pub pk: bool,
    pub generated: bool,
    pub default: bool,
    pub deref: bool,
    pub cast: Option<Seq<char>>,
}

/// A table mapping: record name and visibility, table name, fields in
/// declaration order, and the soft-delete column if any.
pub struct TableMetadata {
    pub ident: String,
    pub vis: String,
    pub table: String,
    pub fields: Vec<FieldSpec>,
    pub soft_delete: Option<String>,
}

/// The mathematical value of a `TableMetadata`.
pub struct TableModel {
    pub ident: Seq<char>,
    pub vis: Seq<char>,
    pub table: Seq<char>,
    pub fields: Seq<FieldModel>,
    pub soft_delete: Option<Seq<char>>,
}

/// The characters of an optional string.
pub open spec fn opt_view(o: Option<String>) -> Option<Seq<char>> {
    match o {
        Some(s) => Some(s@),
        None => None,
    }
}

impl View for FieldSpec {
    type V = FieldModel;

    open spec fn view(&self) -> FieldModel {
        FieldModel {
            name: self.name@,
            ty: self.ty@,
            vis: self.vis@,
            pk: self.is_primary_key,
            generated: self.is_generated,
            default: self.is_default_capable,
            deref: self.needs_dereference,
            cast: opt_view(self.cast),
        }
    }
}

/// The models of a list of fields.
pub open spec fn field_models(fs: Seq<FieldSpec>) -> Seq<FieldModel> {
    Seq::new(fs.len(), |i: int| fs[i]@)
}

impl View for TableMetadata {
    type V = TableModel;

    open spec fn view(&self) -> TableModel {
        TableModel {
            ident: self.ident@,
            vis: self.vis@,
            table: self.table@,
            fields: field_models(self.fields@),
            soft_delete: opt_view(self.soft_delete),
        }
    }
}

/// Some field of `fs` is called `name`.
pub open spec fn has_field(fs: Seq<FieldModel>, name: Seq<char>) -> bool {
    exists|i: int| 0 <= i < fs.len() && #[trigger] fs[i].name == name
}

/// No two fields of `fs` share a name.
pub open spec fn names_unique(fs: Seq<FieldModel>) -> bool {
    forall|a: int, b: int|
        0 <= a < b < fs.len() ==> #[trigger] fs[a].name != #[trigger] fs[b].name
}

/// Some field of `fs` is a primary key.
pub open spec fn has_key(fs: Seq<FieldModel>) -> bool {
    exists|i: int| 0 <= i < fs.len() && #[trigger] fs[i].pk
}

impl TableModel {
    /// The invariant of a mapping that `parse` accepted.
    pub open spec fn wf(self) -> bool {
        &&& self.table.len() > 0
        &&& self.fields.len() > 0
        &&& names_unique(self.fields)
        &&& has_key(self.fields)
        &&& match self.soft_delete {
            Some(c) => has_field(self.fields, c),
            None => true,
        }
    }
}

/// The field that a named raw field becomes.
pub open spec fn field_of(r: RawField) -> FieldModel {
    FieldModel {
        name: r.ident->Some_0@,
        ty: r.ty@,
        vis: r.vis@,
        pk: r.pk,
        generated: r.generated,
        default: r.default,
        deref: r.deref,
        cast: opt_view(r.cast),
    }
}

/// The fields that a list of named raw fields becomes.
pub open spec fn fields_of(rs: Seq<RawField>) -> Seq<FieldModel> {
    Seq::new(rs.len(), |i: int| field_of(rs[i]))
}

/// Every raw field has a name.
pub open spec fn all_named(rs: Seq<RawField>) -> bool {
    forall|i: int| 0 <= i < rs.len() ==> (#[trigger] rs[i]).ident is Some
}

/// The first rule that a declaration breaks, checked in this order: a struct
/// with named fields, a table name, distinct field names, a soft-delete column
/// that names a field, a primary key.
pub open spec fn parse_error(raw: RawDeclaration) -> Option<MetadataError> {
    match raw.fields {
        None => Some(MetadataError::InvalidApplication),
        Some(rs) => {
            let fs = fields_of(rs@);
            if rs@.len() == 0 || !all_named(rs@) {
                Some(MetadataError::InvalidApplication)
            } else if opt_view(raw.table) is None || opt_view(raw.table)->Some_0.len() == 0 {
                Some(MetadataError::MissingTableName)
            } else if !names_unique(fs) {
                Some(MetadataError::DuplicateField)
            } else if opt_view(raw.soft_delete) is Some && !has_field(
                fs,
                opt_view(raw.soft_delete)->Some_0,
            ) {
                Some(MetadataError::DanglingSoftDeleteReference)
            } else if !has_key(fs) {
                Some(MetadataError::MissingPrimaryKey)
            } else {
                None
            }
        },
    }
}

/// The mapping that an accepted declaration describes.
pub open spec fn metadata_of(raw: RawDeclaration) -> TableModel {
    TableModel {
        ident: raw.ident@,
        vis: raw.vis@,
        table: opt_view(raw.table)->Some_0,
        fields: fields_of(raw.fields->Some_0@),
        soft_delete: opt_view(raw.soft_delete),
    }
}

fn clone_opt(o: &Option<String>) -> (r: Option<String>)
    ensures
        opt_view(r) == opt_view(*o),
{
    match o {
        Some(s) => Some(s.clone()),
        None => None,
    }
}

impl FieldSpec {
    /// The field that a raw field describes; a positional field is refused.
    pub fn from_raw(raw: &RawField) -> (r: Result<FieldSpec, MetadataError>)
        ensures
            raw.ident is None ==> r == Err::<FieldSpec, MetadataError>(
                MetadataError::InvalidApplication,
            ),
            raw.ident is Some ==> r is Ok && r->Ok_0@ == field_of(*raw),
    {
        match &raw.ident {
            None => Err(MetadataError::InvalidApplication),
            Some(name) => Ok(
                FieldSpec {
                    name: name.clone(),
                    ty: raw.ty.clone(),
                    vis: raw.vis.clone(),
                    is_primary_key: raw.pk,
                    is_generated: raw.generated,
                    is_default_capable: raw.default,
                    needs_dereference: raw.deref,
                    cast: clone_opt(&raw.cast),
                },
            ),
        }
    }
}

/// The index of the field called `name`, if there is one.
pub fn position_of(fields: &Vec<FieldSpec>, name: &String) -> (r: Option<usize>)
    ensures
        r is None <==> !has_field(field_models(fields@), name@),
        r is Some ==> r->Some_0 < fields@.len() && fields@[r->Some_0 as int].name@ == name@,
{
    let ghost fs = field_models(fields@);
    let mut i: usize = 0;
    while i < fields.len()
        invariant
            i <= fields@.len(),
            fs == field_models(fields@),
            forall|k: int| 0 <= k < i ==> fs[k].name != name@,
        decreases fields@.len() - i,
    {
        if fields[i].name == *name {
            assert(fs[i as int].name == name@);
            return Some(i);
        }
        i = i + 1;
    }
    None
}

/// Whether two fields share a name.
pub fn has_duplicate_names(fields: &Vec<FieldSpec>) -> (r: bool)
    ensures
        r == !names_unique(field_models(fields@)),
{
    let ghost fs = field_models(fields@);
    let mut a: usize = 0;
    while a < fields.len()
        invariant
            a <= fields@.len(),
            fs == field_models(fields@),
            forall|x: int, y: int| 0 <= x < a && x < y < fs.len() ==> fs[x].name != fs[y].name,
        decreases fields@.len() - a,
    {
        let mut b: usize = a + 1;
        while b < fields.len()
            invariant
                a < fields@.len(),
                a + 1 <= b <= fields@.len(),
                fs == field_models(fields@),
                forall|x: int, y: int|
                    0 <= x < a && x < y < fs.len() ==> fs[x].name != fs[y].name,
                forall|y: int| a < y < b ==> fs[a as int].name != fs[y].name,
            decreases fields@.len() - b,
        {
            if fields[a].name == fields[b].name {
                assert(fs[a as int].name == fs[b as int].name);
                return true;
            }
            b = b + 1;
        }
        a = a + 1;
    }
    false
}

/// Whether some field is a primary key.
pub fn has_primary_key(fields: &Vec<FieldSpec>) -> (r: bool)
    ensures
        r == has_key(field_models(fields@)),
{
    let ghost fs = field_models(fields@);
    let mut i: usize = 0;
    while i < fields.len()
        invariant
            i <= fields@.len(),
            fs == field_models(fields@),
            forall|k: int| 0 <= k < i ==> !fs[k].pk,
        decreases fields@.len() - i,
    {
        if fields[i].is_primary_key {
            assert(fs[i as int].pk);
            return true;
        }
        i = i + 1;
    }
    false
}

impl TableMetadata {
    /// Checks a declaration and normalises it into a table mapping. The
    /// first rule broken, in the order of `parse_error`, is the error.
    pub fn parse(raw: &RawDeclaration) -> (r: Result<TableMetadata, MetadataError>)
        ensures
            match r {
                Ok(m) => parse_error(*raw) is None && m@ == metadata_of(*raw) && m@.wf(),
                Err(e) => parse_error(*raw) == Some(e),
            },
    {
        let raws = match &raw.fields {
            None => {
                return Err(MetadataError::InvalidApplication);
            },
            Some(rs) => rs,
        };
        if raws.len() == 0 {
            return Err(MetadataError::InvalidApplication);
        }
        let mut fields: Vec<FieldSpec> = Vec::new();
        let mut i: usize = 0;
        while i < raws.len()
            invariant
                raw.fields == Some(*raws),
                i <= raws@.len(),
                fields@.len() == i,
                forall|k: int| 0 <= k < i ==> (#[trigger] raws@[k]).ident is Some,
                forall|k: int| 0 <= k < i ==> #[trigger] fields@[k]@ == field_of(raws@[k]),
            decreases raws@.len() - i,
        {
            match FieldSpec::from_raw(&raws[i]) {
                Ok(f) => fields.push(f),
                Err(e) => {
                    assert(raws@[i as int].ident is None);
                    assert(!all_named(raws@));
                    return Err(e);
                },
            }
            i = i + 1;
        }
        assert(all_named(raws@));
        assert(field_models(fields@) == fields_of(raws@));
        let table = match &raw.table {
            None => {
                return Err(MetadataError::MissingTableName);
            },
            Some(t) => t,
        };
        if table.as_str().is_empty() {
            return Err(MetadataError::MissingTableName);
        }
        if has_duplicate_names(&fields) {
            return Err(MetadataError::DuplicateField);
        }
        if let Some(column) = &raw.soft_delete {
            if position_of(&fields, column).is_none() {
                return Err(MetadataError::DanglingSoftDeleteReference);
            }
        }
        if !has_primary_key(&fields) {
            return Err(MetadataError::MissingPrimaryKey);
        }
        Ok(
            TableMetadata {
                ident: raw.ident.clone(),
                vis: raw.vis.clone(),
                table: table.clone(),
                fields,
                soft_delete: clone_opt(&raw.soft_delete),
            },
        )
    }
}

} // verus!
