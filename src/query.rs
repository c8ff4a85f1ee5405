//! Statement synthesis: for each of the five operations, the SQL text and the
//! fields that supply its positional parameters, in binding order.
use vstd::prelude::*;
use crate::metadata::{FieldModel, FieldSpec, TableMetadata, TableModel, field_models, opt_view};
use crate::text::{join, join_strings, placeholder, push_placeholder, views};

verus! {

/// The part that a field plays in an operation.
#[derive(Debug, Clone, Copy, PartialEq, Eq, Structural)]
pub enum Role {
    /// Sent by an insert: not generated by the store.
    Insertable,
    /// Sent by every insert: insertable and not default-capable.
    StaticInsert,
    /// Sent by an insert only when given a value: insertable and default-capable.
    OptionalInsert,
    /// Part of the identity: a primary key.
    Key,
    /// Changed by an update: not a key, not generated, not the soft-delete column.
    Settable,
    /// Carried by the update shape: a key or settable.
    Updatable,
}

/// Whether field `f` plays `role`, where `sd` is the soft-delete column.
pub open spec fn in_role(f: FieldModel, role: Role, sd: Option<Seq<char>>) -> bool {
    match role {
        Role::Insertable => !f.generated,
        Role::StaticInsert => !f.generated && !f.default,
        Role::OptionalInsert => !f.generated && f.default,
        Role::Key => f.pk,
        Role::Settable => !f.pk && !f.generated && sd != Some(f.name),
        Role::Updatable => f.pk || (!f.generated && sd != Some(f.name)),
    }
}

/// The indices of the fields of `fs` that play `role`, in declaration order.
pub open spec fn select(fs: Seq<FieldModel>, role: Role, sd: Option<Seq<char>>) -> Seq<usize>
    decreases fs.len(),
{
    if fs.len() == 0 {
        Seq::empty()
    } else {
        let rest = select(fs.drop_last(), role, sd);
        if in_role(fs.last(), role, sd) {
            rest.push((fs.len() - 1) as usize)
        } else {
            rest
        }
    }
}

/// The indices of the fields of `m` that play `role`.
pub open spec fn fields_in(m: TableModel, role: Role) -> Seq<usize> {
    select(m.fields, role, m.soft_delete)
}

/// `idx` lists fields of `fs` that play `role`, each once, in ascending order.
pub open spec fn ordered_selection(
    fs: Seq<FieldModel>,
    idx: Seq<usize>,
    role: Role,
    sd: Option<Seq<char>>,
) -> bool {
    &&& forall|j: int| 0 <= j < idx.len() ==> (#[trigger] idx[j]) < fs.len()
    &&& forall|j: int| 0 <= j < idx.len() ==> in_role(fs[#[trigger] idx[j] as int], role, sd)
    &&& forall|a: int, b: int| 0 <= a < b < idx.len() ==> #[trigger] idx[a] < #[trigger] idx[b]
}

/// A selection holds exactly the fields that play the role, in order.
pub proof fn lemma_select(fs: Seq<FieldModel>, role: Role, sd: Option<Seq<char>>)
    requires
        fs.len() <= usize::MAX,
    ensures
        ordered_selection(fs, select(fs, role, sd), role, sd),
        select(fs, role, sd).len() <= fs.len(),
        forall|i: int|
            0 <= i < fs.len() && in_role(#[trigger] fs[i], role, sd) ==> select(
                fs,
                role,
                sd,
            ).contains(i as usize),
    decreases fs.len(),
{
    if fs.len() > 0 {
        let init = fs.drop_last();
        lemma_select(init, role, sd);
        let rest = select(init, role, sd);
        assert forall|i: int| 0 <= i < fs.len() && in_role(#[trigger] fs[i], role, sd) implies select(
            fs,
            role,
            sd,
        ).contains(i as usize) by {
            if i < fs.len() - 1 {
                assert(init[i] == fs[i]);
                let k = choose|k: int| 0 <= k < rest.len() && rest[k] == i as usize;
                if in_role(fs.last(), role, sd) {
                    assert(rest.push((fs.len() - 1) as usize)[k] == i as usize);
                }
            } else {
                assert(select(fs, role, sd).last() == i as usize);
            }
        }
        assert forall|j: int| 0 <= j < rest.len() implies in_role(
            fs[#[trigger] rest[j] as int],
            role,
            sd,
        ) by {
            assert(init[rest[j] as int] == fs[rest[j] as int]);
        }
        if in_role(fs.last(), role, sd) {
            let all = rest.push((fs.len() - 1) as usize);
            assert forall|j: int| 0 <= j < all.len() implies in_role(
                fs[#[trigger] all[j] as int],
                role,
                sd,
            ) by {
                if j < rest.len() {
                    assert(all[j] == rest[j]);
                }
            }
        }
    }
}

/// The keys and the settable fields split the fields of the update shape.
pub proof fn lemma_update_split(fs: Seq<FieldModel>, sd: Option<Seq<char>>)
    ensures
        select(fs, Role::Key, sd).len() + select(fs, Role::Settable, sd).len() == select(
            fs,
            Role::Updatable,
            sd,
        ).len(),
    decreases fs.len(),
{
    if fs.len() > 0 {
        lemma_update_split(fs.drop_last(), sd);
    }
}

/// A parameterised statement: its text, and for each placeholder `$k` the
/// index of the field that supplies it, at position `k - 1`.
pub struct QueryPlan {
    pub sql: String,
    pub params: Vec<usize>,
}

/// `name = $n`.
pub open spec fn assignment(name: Seq<char>, n: nat) -> Seq<char> {
    name + " = "@ + placeholder(n)
}

/// `name = $n` for the fields at `idx`, numbered from `start` on.
pub open spec fn assignments(fs: Seq<FieldModel>, idx: Seq<usize>, start: nat) -> Seq<Seq<char>> {
    Seq::new(idx.len(), |j: int| assignment(fs[idx[j] as int].name, start + j as nat))
}

/// The filter that hides soft-deleted rows, if `m` has a soft-delete column.
pub open spec fn live_filter(m: TableModel) -> Seq<Seq<char>> {
    match m.soft_delete {
        Some(c) => seq![c + " IS NULL"@],
        None => Seq::empty(),
    }
}

/// The key comparisons, numbered from 1.
pub open spec fn key_assignments(m: TableModel) -> Seq<Seq<char>> {
    assignments(m.fields, fields_in(m, Role::Key), 1)
}

/// The conditions of a lookup by key: the key comparisons, then the live filter.
pub open spec fn key_conditions(m: TableModel) -> Seq<Seq<char>> {
    key_assignments(m) + live_filter(m)
}

/// How a field is read back: with a cast, as `name AS "name!: cast"`.
pub open spec fn projection(f: FieldModel) -> Seq<char> {
    match f.cast {
        Some(c) => f.name + " AS \""@ + f.name + "!: "@ + c + "\""@,
        None => f.name,
    }
}

/// The column list that reads a whole record back, in declaration order.
pub open spec fn columns(m: TableModel) -> Seq<char> {
    join(Seq::new(m.fields.len(), |i: int| projection(m.fields[i])), ", "@)
}

/// `$1`, ..., `$n`.
pub open spec fn placeholders(n: nat) -> Seq<Seq<char>> {
    Seq::new(n, |i: int| placeholder((i + 1) as nat))
}

/// An insert of the columns `cols`; with no column, the store's defaults.
pub open spec fn insert_sql(table: Seq<char>, cols: Seq<Seq<char>>) -> Seq<char> {
    if cols.len() == 0 {
        "INSERT INTO "@ + table + " DEFAULT VALUES RETURNING *"@
    } else {
        "INSERT INTO "@ + table + " ("@ + join(cols, ", "@) + ") VALUES ("@ + join(
            placeholders(cols.len()),
            ", "@,
        ) + ") RETURNING *"@
    }
}

/// The names of the fields at `idx`.
pub open spec fn names_at(fs: Seq<FieldModel>, idx: Seq<usize>) -> Seq<Seq<char>> {
    Seq::new(idx.len(), |j: int| fs[idx[j] as int].name)
}

/// The update: the settable fields numbered after the keys, matched by key
/// on live rows, reading the record back.
pub open spec fn update_sql(m: TableModel) -> Seq<char> {
    let keys = fields_in(m, Role::Key);
    let sets = fields_in(m, Role::Settable);
    "UPDATE "@ + m.table + " SET "@ + join(assignments(m.fields, sets, keys.len() + 1), ", "@)
        + " WHERE "@ + join(key_conditions(m), " AND "@) + " RETURNING "@ + columns(m)
}

/// The delete by key; with a soft-delete column, a timestamp instead.
pub open spec fn delete_sql(m: TableModel) -> Seq<char> {
    match m.soft_delete {
        Some(c) => "UPDATE "@ + m.table + " SET "@ + c + " = NOW() WHERE "@ + join(
            key_assignments(m),
            " AND "@,
        ),
        None => "DELETE FROM "@ + m.table + " WHERE "@ + join(key_assignments(m), " AND "@),
    }
}

/// The lookup by key of a live row.
pub open spec fn fetch_sql(m: TableModel) -> Seq<char> {
    "SELECT "@ + columns(m) + " FROM "@ + m.table + " WHERE "@ + join(key_conditions(m), " AND "@)
}

/// The scan of all live rows.
pub open spec fn stream_sql(m: TableModel) -> Seq<char> {
    match m.soft_delete {
        Some(c) => "SELECT "@ + columns(m) + " FROM "@ + m.table + " WHERE "@ + c + " IS NULL"@,
        None => "SELECT "@ + columns(m) + " FROM "@ + m.table,
    }
}

/// Whether `field` plays `role`, where `soft_delete` is the soft-delete column.
pub fn plays(field: &FieldSpec, role: Role, soft_delete: &Option<String>) -> (r: bool)
    ensures
        r == in_role(field@, role, opt_view(*soft_delete)),
{
    let is_soft_delete = match soft_delete {
        Some(c) => *c == field.name,
        None => false,
    };
    match role {
        Role::Insertable => !field.is_generated,
        Role::StaticInsert => !field.is_generated && !field.is_default_capable,
        Role::OptionalInsert => !field.is_generated && field.is_default_capable,
        Role::Key => field.is_primary_key,
        Role::Settable => !field.is_primary_key && !field.is_generated && !is_soft_delete,
        Role::Updatable => field.is_primary_key || (!field.is_generated && !is_soft_delete),
    }
}

/// The indices of the fields that play `role`, in declaration order.
pub fn select_fields(fields: &Vec<FieldSpec>, role: Role, soft_delete: &Option<String>) -> (r: Vec<
    usize,
>)
    ensures
        r@ == select(field_models(fields@), role, opt_view(*soft_delete)),
{
    let ghost fs = field_models(fields@);
    let ghost sd = opt_view(*soft_delete);
    let mut r: Vec<usize> = Vec::new();
    let mut i: usize = 0;
    while i < fields.len()
        invariant
            i <= fields@.len(),
            fs == field_models(fields@),
            sd == opt_view(*soft_delete),
            r@ == select(fs.take(i as int), role, sd),
        decreases fields@.len() - i,
    {
        assert(fs.take(i + 1).drop_last() == fs.take(i as int));
        assert(fs.take(i + 1).last() == fields@[i as int]@);
        if plays(&fields[i], role, soft_delete) {
            r.push(i);
        }
        i = i + 1;
    }
    assert(fs.take(fields@.len() as int) == fs);
    r
}

/// `name = $n` for the fields at `idx`, numbered from `offset + 1` on.
pub fn build_assignments(fields: &Vec<FieldSpec>, idx: &Vec<usize>, offset: usize) -> (r: Vec<
    String,
>)
    requires
        forall|j: int| 0 <= j < idx@.len() ==> (#[trigger] idx@[j]) < fields@.len(),
        offset + idx@.len() <= usize::MAX,
    ensures
        views(r@) == assignments(field_models(fields@), idx@, (offset + 1) as nat),
{
    let ghost fs = field_models(fields@);
    let mut r: Vec<String> = Vec::new();
    let mut j: usize = 0;
    while j < idx.len()
        invariant
            j <= idx@.len(),
            r@.len() == j,
            fs == field_models(fields@),
            forall|k: int| 0 <= k < idx@.len() ==> (#[trigger] idx@[k]) < fields@.len(),
            offset + idx@.len() <= usize::MAX,
            forall|k: int|
                0 <= k < j ==> (#[trigger] r@[k])@ == assignment(
                    fs[idx@[k] as int].name,
                    (offset + 1 + k) as nat,
                ),
        decreases idx@.len() - j,
    {
        let mut s = fields[idx[j]].name.clone();
        s.append(" = ");
        push_placeholder(&mut s, offset + j + 1);
        r.push(s);
        j = j + 1;
    }
    assert(views(r@) =~= assignments(fs, idx@, (offset + 1) as nat));
    r
}

/// How `field` is read back.
pub fn build_projection(field: &FieldSpec) -> (r: String)
    ensures
        r@ == projection(field@),
{
    let mut s = field.name.clone();
    if let Some(cast) = &field.cast {
        s.append(" AS \"");
        s.append(field.name.as_str());
        s.append("!: ");
        s.append(cast.as_str());
        s.append("\"");
    }
    s
}

/// `$1`, ..., `$n`.
pub fn build_placeholders(n: usize) -> (r: Vec<String>)
    ensures
        views(r@) == placeholders(n as nat),
{
    let mut r: Vec<String> = Vec::new();
    let mut i: usize = 0;
    while i < n
        invariant
            i <= n,
            r@.len() == i,
            forall|k: int| 0 <= k < i ==> (#[trigger] r@[k])@ == placeholder((k + 1) as nat),
        decreases n - i,
    {
        let mut s = String::new();
        push_placeholder(&mut s, i + 1);
        r.push(s);
        i = i + 1;
    }
    assert(views(r@) =~= placeholders(n as nat));
    r
}

/// The insert statement for the columns `columns` of `table`. With no
/// column it lets the store fill every column with its default.
pub fn insert_statement(table: &str, columns: &Vec<String>) -> (r: String)
    ensures
        r@ == insert_sql(table@, views(columns@)),
{
    let mut s = String::from_str("INSERT INTO ");
    s.append(table);
    if columns.len() == 0 {
        s.append(" DEFAULT VALUES RETURNING *");
    } else {
        s.append(" (");
        let cols = join_strings(columns, ", ");
        s.append(cols.as_str());
        s.append(") VALUES (");
        let marks = join_strings(&build_placeholders(columns.len()), ", ");
        s.append(marks.as_str());
        s.append(") RETURNING *");
    }
    s
}

impl TableMetadata {
    /// The indices of the fields that play `role`, in declaration order.
    pub fn fields_in(&self, role: Role) -> (r: Vec<usize>)
        ensures
            r@ == fields_in(self@, role),
            ordered_selection(self@.fields, r@, role, self@.soft_delete),
            r@.len() <= self.fields@.len(),
    {
        let n = self.fields.len();
        proof {
            lemma_select(self@.fields, role, self@.soft_delete);
        }
        select_fields(&self.fields, role, &self.soft_delete)
    }

    /// The names of the fields at `idx`.
    pub fn names_at(&self, idx: &Vec<usize>) -> (r: Vec<String>)
        requires
            forall|j: int| 0 <= j < idx@.len() ==> (#[trigger] idx@[j]) < self.fields@.len(),
        ensures
            views(r@) == names_at(self@.fields, idx@),
    {
        let mut r: Vec<String> = Vec::new();
        let mut j: usize = 0;
        while j < idx.len()
            invariant
                j <= idx@.len(),
                r@.len() == j,
                forall|k: int| 0 <= k < idx@.len() ==> (#[trigger] idx@[k]) < self.fields@.len(),
                forall|k: int|
                    0 <= k < j ==> (#[trigger] r@[k])@ == self.fields@[idx@[k] as int].name@,
            decreases idx@.len() - j,
        {
            r.push(self.fields[idx[j]].name.clone());
            j = j + 1;
        }
        assert(views(r@) =~= names_at(self@.fields, idx@));
        r
    }

    /// The column list that reads a whole record back.
    pub fn columns(&self) -> (r: String)
        ensures
            r@ == columns(self@),
    {
        let mut parts: Vec<String> = Vec::new();
        let mut i: usize = 0;
        while i < self.fields.len()
            invariant
                i <= self.fields@.len(),
                parts@.len() == i,
                forall|k: int|
                    0 <= k < i ==> (#[trigger] parts@[k])@ == projection(self.fields@[k]@),
            decreases self.fields@.len() - i,
        {
            parts.push(build_projection(&self.fields[i]));
            i = i + 1;
        }
        assert(views(parts@) =~= Seq::new(
            self@.fields.len(),
            |i: int| projection(self@.fields[i]),
        ));
        join_strings(&parts, ", ")
    }
}

} // verus!
