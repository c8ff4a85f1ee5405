//! Properties that tie the generated records and statements together.
use vstd::prelude::*;
use crate::generate::generated_ok;
use crate::metadata::TableModel;
use crate::plan::{InsertPlan, insert_plan_ok};
use crate::query::{
    Role, assignment, columns, delete_sql, fetch_sql, fields_in, in_role,
    key_assignments, key_conditions, lemma_select, live_filter, ordered_selection, stream_sql,
};
use crate::runtime::{chosen_columns, supplied_columns};
use crate::shape::shape_fields;
use crate::text::join;

verus! {

/// Joining one more part adds the separator and that part at the end.
pub proof fn lemma_join_push(parts: Seq<Seq<char>>, sep: Seq<char>, last: Seq<char>)
    requires
        parts.len() > 0,
    ensures
        join(parts.push(last), sep) == join(parts, sep) + sep + last,
{
    assert(parts.push(last).drop_last() == parts);
}

/// The insert payload of a record holds exactly its fields that the store
/// does not generate, each typed as a tri-state value exactly when it is
/// default-capable; and the lookup by key binds exactly the fields of the
/// key record, in the same order, so a returned row can be read again.
pub proof fn law_insertable_shape(m: TableModel, g: crate::generate::Generated)
    requires
        m.fields.len() <= usize::MAX,
        exists|i: int| 0 <= i < m.fields.len() && !(#[trigger] m.fields[i]).generated,
        generated_ok(m, g),
    ensures
        g.insertable.fields@.len() > 0,
        forall|i: int|
            0 <= i < m.fields.len() ==> (!(#[trigger] m.fields[i]).generated <==> exists|j: int|
                0 <= j < g.insertable.fields@.len() && g.insertable.fields@[j].field == i),
        forall|j: int|
            0 <= j < g.insertable.fields@.len() ==> (#[trigger] g.insertable.fields@[j]).defaultable
                == m.fields[g.insertable.fields@[j].field as int].default,
        g.fetch.params@.len() == g.pk.fields@.len(),
        forall|j: int|
            0 <= j < g.fetch.params@.len() ==> #[trigger] g.fetch.params@[j]
                == g.pk.fields@[j].field,
{
    let ins = fields_in(m, Role::Insertable);
    lemma_select(m.fields, Role::Insertable, m.soft_delete);
    let sf = g.insertable.fields@;
    assert(sf == shape_fields(m, ins, true));
    let w = choose|i: int| 0 <= i < m.fields.len() && !(#[trigger] m.fields[i]).generated;
    assert(in_role(m.fields[w], Role::Insertable, m.soft_delete));
    assert(ins.contains(w as usize));
    assert forall|i: int| 0 <= i < m.fields.len() implies (!(#[trigger] m.fields[i]).generated
        <==> exists|j: int| 0 <= j < sf.len() && sf[j].field == i) by {
        if !m.fields[i].generated {
            assert(in_role(m.fields[i], Role::Insertable, m.soft_delete));
            let j = choose|j: int| 0 <= j < ins.len() && ins[j] == i as usize;
            assert(sf[j].field == i);
        }
        if exists|j: int| 0 <= j < sf.len() && sf[j].field == i {
            let j = choose|j: int| 0 <= j < sf.len() && sf[j].field == i;
            assert(in_role(m.fields[ins[j] as int], Role::Insertable, m.soft_delete));
        }
    }
}

/// A record whose fields are all generated by the store is inserted by the
/// statement without columns, which binds nothing, from an empty payload.
pub proof fn law_insert_without_columns(m: TableModel, p: InsertPlan)
    requires
        m.fields.len() <= usize::MAX,
        forall|i: int| 0 <= i < m.fields.len() ==> (#[trigger] m.fields[i]).generated,
        insert_plan_ok(m, p),
    ensures
        p is Static,
        p->Static_0.sql@ == "INSERT INTO "@ + m.table + " DEFAULT VALUES RETURNING *"@,
        p->Static_0.params@.len() == 0,
        shape_fields(m, fields_in(m, Role::Insertable), true).len() == 0,
{
    lemma_select(m.fields, Role::Insertable, m.soft_delete);
    lemma_select(m.fields, Role::OptionalInsert, m.soft_delete);
    let ins = fields_in(m, Role::Insertable);
    if ins.len() > 0 {
        assert(in_role(m.fields[ins[0] as int], Role::Insertable, m.soft_delete));
    }
    let opt = fields_in(m, Role::OptionalInsert);
    if opt.len() > 0 {
        assert(in_role(m.fields[opt[0] as int], Role::OptionalInsert, m.soft_delete));
    }
}

/// With a soft-delete column `c`: delete stamps `c` instead of removing the
/// row; fetch, stream and update all match only rows where `c IS NULL`.
pub proof fn law_soft_delete(m: TableModel, c: Seq<char>)
    requires
        m.wf(),
        m.fields.len() <= usize::MAX,
        m.soft_delete == Some(c),
    ensures
        delete_sql(m) == "UPDATE "@ + m.table + " SET "@ + c + " = NOW() WHERE "@ + join(
            key_assignments(m),
            " AND "@,
        ),
        fetch_sql(m) == "SELECT "@ + columns(m) + " FROM "@ + m.table + " WHERE "@ + join(
            key_assignments(m),
            " AND "@,
        ) + " AND "@ + c + " IS NULL"@,
        stream_sql(m) == "SELECT "@ + columns(m) + " FROM "@ + m.table + " WHERE "@ + c
            + " IS NULL"@,
        join(key_conditions(m), " AND "@) == join(key_assignments(m), " AND "@) + " AND "@ + c
            + " IS NULL"@,
{
    lemma_select(m.fields, Role::Key, m.soft_delete);
    let keys = fields_in(m, Role::Key);
    let w = choose|i: int| 0 <= i < m.fields.len() && #[trigger] m.fields[i].pk;
    assert(in_role(m.fields[w], Role::Key, m.soft_delete));
    assert(keys.contains(w as usize));
    let ka = key_assignments(m);
    assert(key_conditions(m) == ka.push(c + " IS NULL"@));
    lemma_join_push(ka, " AND "@, c + " IS NULL"@);
    assert(join(ka, " AND "@) + " AND "@ + (c + " IS NULL"@) == join(ka, " AND "@) + " AND "@ + c
        + " IS NULL"@);
}

/// A column whose payload says `Default` is left out of the insert, so the
/// store applies its default; one that carries a value is sent. Column names
/// are those of one record, hence distinct.
pub proof fn law_default_omits_column(
    statics: Seq<Seq<char>>,
    optional: Seq<Seq<char>>,
    supplied: Seq<bool>,
    i: int,
)
    requires
        optional.len() == supplied.len(),
        0 <= i < optional.len(),
        forall|a: int, b: int|
            0 <= a < b < (statics + optional).len() ==> (statics + optional)[a] != (statics
                + optional)[b],
    ensures
        !supplied[i] ==> !chosen_columns(statics, optional, supplied).contains(optional[i]),
        supplied[i] ==> chosen_columns(statics, optional, supplied).contains(optional[i]),
{
    lemma_supplied_columns(optional, supplied);
    let all = statics + optional;
    let chosen = chosen_columns(statics, optional, supplied);
    if !supplied[i] && chosen.contains(optional[i]) {
        let k = choose|k: int| 0 <= k < chosen.len() && chosen[k] == optional[i];
        if k < statics.len() {
            assert(all[k] == all[statics.len() + i]);
        } else {
            let s = supplied_columns(optional, supplied);
            assert(s[k - statics.len()] == optional[i]);
            assert(is_supplied(optional, supplied, s[k - statics.len()]));
            let i2 = choose|i2: int|
                0 <= i2 < optional.len() && supplied[i2] && #[trigger] optional[i2] == s[k
                    - statics.len()];
            assert(i2 != i);
            if i2 < i {
                assert(all[statics.len() + i2] == all[statics.len() + i]);
            } else {
                assert(all[statics.len() + i] == all[statics.len() + i2]);
            }
        }
    }
    if supplied[i] {
        let s = supplied_columns(optional, supplied);
        let k = choose|k: int| 0 <= k < s.len() && s[k] == optional[i];
        assert(chosen[statics.len() + k] == optional[i]);
    }
}

/// Some optional column whose flag is set is called `x`.
pub open spec fn is_supplied(optional: Seq<Seq<char>>, supplied: Seq<bool>, x: Seq<char>) -> bool {
    exists|i: int| 0 <= i < optional.len() && supplied[i] && #[trigger] optional[i] == x
}

/// The supplied columns are the optional columns whose flag is set.
pub proof fn lemma_supplied_columns(optional: Seq<Seq<char>>, supplied: Seq<bool>)
    requires
        optional.len() == supplied.len(),
    ensures
        forall|k: int|
            0 <= k < supplied_columns(optional, supplied).len() ==> is_supplied(
                optional,
                supplied,
                #[trigger] supplied_columns(optional, supplied)[k],
            ),
        forall|i: int|
            0 <= i < optional.len() && #[trigger] supplied[i] ==> supplied_columns(
                optional,
                supplied,
            ).contains(optional[i]),
    decreases optional.len(),
{
    if optional.len() > 0 {
        let o2 = optional.drop_last();
        let s2 = supplied.drop_last();
        lemma_supplied_columns(o2, s2);
        let rest = supplied_columns(o2, s2);
        let all = supplied_columns(optional, supplied);
        assert forall|k: int| 0 <= k < all.len() implies is_supplied(
            optional,
            supplied,
            #[trigger] all[k],
        ) by {
            if k < rest.len() {
                assert(all[k] == rest[k]);
                let i = choose|i: int| 0 <= i < o2.len() && s2[i] && #[trigger] o2[i] == rest[k];
                assert(optional[i] == o2[i] && supplied[i] == s2[i]);
            } else {
                assert(optional[optional.len() - 1] == all[k]);
            }
        }
        assert forall|i: int| 0 <= i < optional.len() && #[trigger] supplied[i] implies all.contains(
            optional[i],
        ) by {
            if i < optional.len() - 1 {
                assert(s2[i] == supplied[i]);
                assert(o2[i] == optional[i]);
                let k = choose|k: int| 0 <= k < rest.len() && rest[k] == o2[i];
                if supplied.last() {
                    assert(all[k] == rest[k]);
                }
            } else {
                assert(all.last() == optional[i]);
            }
        }
    }
}

/// A record with several keys is fetched and deleted only where every key
/// matches: one comparison per key field, in declaration order, numbered
/// from `$1` and joined by `AND`; and the key record holds exactly the key
/// fields, in declaration order.
pub proof fn law_composite_key(m: TableModel)
    requires
        m.fields.len() <= usize::MAX,
    ensures
        ordered_selection(m.fields, fields_in(m, Role::Key), Role::Key, m.soft_delete),
        forall|i: int|
            0 <= i < m.fields.len() && (#[trigger] m.fields[i]).pk ==> fields_in(
                m,
                Role::Key,
            ).contains(i as usize),
        key_assignments(m).len() == fields_in(m, Role::Key).len(),
        forall|j: int|
            0 <= j < key_assignments(m).len() ==> #[trigger] key_assignments(m)[j] == assignment(
                m.fields[fields_in(m, Role::Key)[j] as int].name,
                (j + 1) as nat,
            ),
        key_conditions(m) == key_assignments(m) + live_filter(m),
        fetch_sql(m) == "SELECT "@ + columns(m) + " FROM "@ + m.table + " WHERE "@ + join(
            key_conditions(m),
            " AND "@,
        ),
        m.soft_delete is None ==> delete_sql(m) == "DELETE FROM "@ + m.table + " WHERE "@ + join(
            key_assignments(m),
            " AND "@,
        ),
        shape_fields(m, fields_in(m, Role::Key), false).len() == fields_in(m, Role::Key).len(),
        forall|j: int|
            0 <= j < fields_in(m, Role::Key).len() ==> (#[trigger] shape_fields(
                m,
                fields_in(m, Role::Key),
                false,
            )[j]).field == fields_in(m, Role::Key)[j],
{
    lemma_select(m.fields, Role::Key, m.soft_delete);
}

/// A record with no settable field (every field a key, generated, or the
/// soft-delete column) gets neither an update record nor an update.
pub proof fn law_no_update_without_settable(m: TableModel, g: crate::generate::Generated)
    requires
        m.fields.len() <= usize::MAX,
        forall|i: int|
            0 <= i < m.fields.len() ==> (#[trigger] m.fields[i]).pk || m.fields[i].generated
                || m.soft_delete == Some(m.fields[i].name),
        generated_ok(m, g),
    ensures
        g.update is None,
        g.updatable is None,
{
    lemma_select(m.fields, Role::Settable, m.soft_delete);
    let sets = fields_in(m, Role::Settable);
    if sets.len() > 0 {
        assert(in_role(m.fields[sets[0] as int], Role::Settable, m.soft_delete));
    }
}

} // verus!
