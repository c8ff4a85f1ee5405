//! The whole generation pass: a declaration in, every companion record and
//! operation of its table mapping out.
use vstd::prelude::*;
use crate::metadata::{MetadataError, RawDeclaration, TableMetadata, TableModel, parse_error, metadata_of};
use crate::plan::{InsertPlan, insert_plan_ok};
use crate::query::{QueryPlan, Role, delete_sql, fetch_sql, fields_in, stream_sql, update_sql};
use crate::shape::{Shape, insertable_name, pk_name, shape_fields, updatable_name};

verus! {

/// Everything generated for one table mapping. `update` and `updatable`
/// are both absent exactly when no field can be changed.
pub struct Generated {
    pub insertable: Shape,
    pub insert: InsertPlan,
    pub updatable: Option<Shape>,
    pub update: Option<QueryPlan>,
    pub pk: Shape,
    pub delete: QueryPlan,
    pub fetch: QueryPlan,
    pub stream: QueryPlan,
}

/// `g` is what the generation pass makes of `m`.
pub open spec fn generated_ok(m: TableModel, g: Generated) -> bool {
    let keys = fields_in(m, Role::Key);
    let sets = fields_in(m, Role::Settable);
    &&& g.insertable.name@ == insertable_name(m)
    &&& g.insertable.fields@ == shape_fields(m, fields_in(m, Role::Insertable), true)
    &&& insert_plan_ok(m, g.insert)
    &&& (g.updatable is None <==> sets.len() == 0)
    &&& (g.update is None <==> sets.len() == 0)
    &&& (g.updatable is Some ==> g.updatable->Some_0.name@ == updatable_name(m)
        && g.updatable->Some_0.fields@ == shape_fields(m, fields_in(m, Role::Updatable), false))
    &&& (g.update is Some ==> g.update->Some_0.sql@ == update_sql(m) && g.update->Some_0.params@
        == keys + sets)
    &&& g.pk.name@ == pk_name(m)
    &&& g.pk.fields@ == shape_fields(m, keys, false)
    &&& g.delete.sql@ == delete_sql(m)
    &&& g.delete.params@ == keys
    &&& g.fetch.sql@ == fetch_sql(m)
    &&& g.fetch.params@ == keys
    &&& g.stream.sql@ == stream_sql(m)
    &&& g.stream.params@.len() == 0
}

/// Generates every companion record and operation of a table mapping.
pub fn generate(m: &TableMetadata) -> (r: Generated)
    ensures
        generated_ok(m@, r),
{
    Generated {
        insertable: m.insertable_shape(),
        insert: m.insert_plan(),
        updatable: m.updatable_shape(),
        update: m.update_plan(),
        pk: m.pk_shape(),
        delete: m.delete_plan(),
        fetch: m.fetch_plan(),
        stream: m.stream_plan(),
    }
}

/// Checks a declaration, then generates its table mapping; nothing is
/// generated for a declaration that `TableMetadata::parse` refuses.
pub fn generate_from(raw: &RawDeclaration) -> (r: Result<(TableMetadata, Generated), MetadataError>)
    ensures
        match r {
            Ok((m, g)) => parse_error(*raw) is None && m@ == metadata_of(*raw) && generated_ok(
                m@,
                g,
            ),
            Err(e) => parse_error(*raw) == Some(e),
        },
{
    let m = TableMetadata::parse(raw)?;
    let g = generate(&m);
    Ok((m, g))
}

} // verus!
