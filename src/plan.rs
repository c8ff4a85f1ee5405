//! The five operations of a table mapping, each as a statement and the order
//! in which the fields bind its parameters.
use vstd::prelude::*;
use crate::metadata::{TableMetadata, TableModel};
use crate::query::{
    QueryPlan, Role, build_assignments, delete_sql, fetch_sql, fields_in, insert_sql,
    insert_statement, key_assignments, key_conditions, lemma_select, lemma_update_split,
    live_filter, names_at, stream_sql, update_sql,
};
use crate::text::{join_strings, views};

verus! {

/// How a record is inserted.
pub enum InsertPlan {
    /// Every insert sends the same columns: one fixed statement.
    Static(QueryPlan),
    /// Some columns are sent only when the payload carries a value for them,
    /// so the statement is assembled per call (see `insert_columns`): the
    /// fields always sent, then those sent on demand, both in declaration order.
    Dynamic { static_fields: Vec<usize>, optional_fields: Vec<usize> },
}

/// The insert plan that `m` calls for.
pub open spec fn insert_plan_ok(m: TableModel, p: InsertPlan) -> bool {
    let ins = fields_in(m, Role::Insertable);
    if fields_in(m, Role::OptionalInsert).len() == 0 {
        &&& p is Static
        &&& p->Static_0.sql@ == insert_sql(m.table, names_at(m.fields, ins))
        &&& p->Static_0.params@ == ins
    } else {
        &&& p is Dynamic
        &&& p->static_fields@ == fields_in(m, Role::StaticInsert)
        &&& p->optional_fields@ == fields_in(m, Role::OptionalInsert)
    }
}

impl TableMetadata {
    /// The key comparisons then the live filter, as separate conditions.
    fn key_condition_list(&self) -> (r: Vec<String>)
        ensures
            views(r@) == key_conditions(self@),
    {
        let keys = self.fields_in(Role::Key);
        let n = self.fields.len();
        let mut conds = build_assignments(&self.fields, &keys, 0);
        let ghost before = views(conds@);
        if let Some(column) = &self.soft_delete {
            let mut c = column.clone();
            c.append(" IS NULL");
            conds.push(c);
        }
        assert(views(conds@) =~= before + live_filter(self@));
        conds
    }

    /// The insert. Without default-capable fields one statement serves every
    /// call; with none to send it lets the store fill every column.
    pub fn insert_plan(&self) -> (r: InsertPlan)
        ensures
            insert_plan_ok(self@, r),
    {
        let optional = self.fields_in(Role::OptionalInsert);
        if optional.len() == 0 {
            let ins = self.fields_in(Role::Insertable);
            let names = self.names_at(&ins);
            let sql = insert_statement(self.table.as_str(), &names);
            InsertPlan::Static(QueryPlan { sql, params: ins })
        } else {
            InsertPlan::Dynamic {
                static_fields: self.fields_in(Role::StaticInsert),
                optional_fields: optional,
            }
        }
    }

    /// The update of the settable fields of a live row, found by key. There
    /// is none when no field is settable.
    pub fn update_plan(&self) -> (r: Option<QueryPlan>)
        ensures
            r is None <==> fields_in(self@, Role::Settable).len() == 0,
            r is Some ==> r->Some_0.sql@ == update_sql(self@) && r->Some_0.params@ == fields_in(
                self@,
                Role::Key,
            ) + fields_in(self@, Role::Settable),
    {
        let mut keys = self.fields_in(Role::Key);
        let mut sets = self.fields_in(Role::Settable);
        if sets.len() == 0 {
            return None;
        }
        let n = self.fields.len();
        proof {
            lemma_select(self@.fields, Role::Updatable, self@.soft_delete);
            lemma_update_split(self@.fields, self@.soft_delete);
        }
        let set_parts = build_assignments(&self.fields, &sets, keys.len());
        let conds = self.key_condition_list();
        let mut sql = String::from_str("UPDATE ");
        sql.append(self.table.as_str());
        sql.append(" SET ");
        sql.append(join_strings(&set_parts, ", ").as_str());
        sql.append(" WHERE ");
        sql.append(join_strings(&conds, " AND ").as_str());
        sql.append(" RETURNING ");
        sql.append(self.columns().as_str());
        keys.append(&mut sets);
        Some(QueryPlan { sql, params: keys })
    }

    /// The delete by key; with a soft-delete column, the row is stamped
    /// instead of removed.
    pub fn delete_plan(&self) -> (r: QueryPlan)
        ensures
            r.sql@ == delete_sql(self@),
            r.params@ == fields_in(self@, Role::Key),
    {
        let keys = self.fields_in(Role::Key);
        let n = self.fields.len();
        let conds = build_assignments(&self.fields, &keys, 0);
        assert(views(conds@) == key_assignments(self@));
        let mut sql = String::new();
        match &self.soft_delete {
            Some(column) => {
                sql.append("UPDATE ");
                sql.append(self.table.as_str());
                sql.append(" SET ");
                sql.append(column.as_str());
                sql.append(" = NOW() WHERE ");
            },
            None => {
                sql.append("DELETE FROM ");
                sql.append(self.table.as_str());
                sql.append(" WHERE ");
            },
        }
        sql.append(join_strings(&conds, " AND ").as_str());
        QueryPlan { sql, params: keys }
    }

    /// The lookup of a live row by key.
    pub fn fetch_plan(&self) -> (r: QueryPlan)
        ensures
            r.sql@ == fetch_sql(self@),
            r.params@ == fields_in(self@, Role::Key),
    {
        let conds = self.key_condition_list();
        let mut sql = String::from_str("SELECT ");
        sql.append(self.columns().as_str());
        sql.append(" FROM ");
        sql.append(self.table.as_str());
        sql.append(" WHERE ");
        sql.append(join_strings(&conds, " AND ").as_str());
        QueryPlan { sql, params: self.fields_in(Role::Key) }
    }

    /// The scan of every live row.
    pub fn stream_plan(&self) -> (r: QueryPlan)
        ensures
            r.sql@ == stream_sql(self@),
            r.params@.len() == 0,
    {
        let mut sql = String::from_str("SELECT ");
        sql.append(self.columns().as_str());
        sql.append(" FROM ");
        sql.append(self.table.as_str());
        if let Some(column) = &self.soft_delete {
            sql.append(" WHERE ");
            sql.append(column.as_str());
            sql.append(" IS NULL");
        }
        QueryPlan { sql, params: Vec::new() }
    }
}

} // verus!
