use gremlin_orm::generate::{generate, generate_from};
use gremlin_orm::metadata::{FieldSpec, MetadataError, RawDeclaration, RawField, TableMetadata};
use gremlin_orm::plan::InsertPlan;
use gremlin_orm::query::{insert_statement, Role};
use gremlin_orm::runtime::{insert_columns, Defaultable, InsertColumns};
use gremlin_orm::shape::ShapeField;
use gremlin_orm::text::{join_strings, push_decimal, push_placeholder};

fn field(name: &str, pk: bool, generated: bool, default: bool) -> FieldSpec {
    FieldSpec {
        name: name.to_string(),
        ty: "i32".to_string(),
        vis: String::new(),
        is_primary_key: pk,
        is_generated: generated,
        is_default_capable: default,
        needs_dereference: false,
        cast: None,
    }
}

fn table(ident: &str, table: &str, fields: Vec<FieldSpec>, soft_delete: Option<&str>) -> TableMetadata {
    TableMetadata {
        ident: ident.to_string(),
        vis: "pub".to_string(),
        table: table.to_string(),
        fields,
        soft_delete: soft_delete.map(|s| s.to_string()),
    }
}

fn artist() -> TableMetadata {
    table(
        "Artist",
        "public.artist",
        vec![field("id", true, true, false), field("name", false, false, false), field("slug", false, true, false)],
        None,
    )
}

fn plain(i: usize) -> ShapeField {
    ShapeField { field: i, defaultable: false }
}

fn raw_field(name: Option<&str>, pk: bool) -> RawField {
    RawField {
        ident: name.map(|s| s.to_string()),
        vis: String::new(),
        ty: "i32".to_string(),
        pk,
        generated: false,
        default: false,
        deref: false,
        cast: None,
    }
}

fn raw(fields: Option<Vec<RawField>>, table: Option<&str>, soft_delete: Option<&str>) -> RawDeclaration {
    RawDeclaration {
        ident: "Entity".to_string(),
        vis: String::new(),
        fields,
        table: table.map(|s| s.to_string()),
        soft_delete: soft_delete.map(|s| s.to_string()),
    }
}

#[test]
fn it_should_insert_an_entity() {
    let g = generate(&artist());
    assert_eq!(g.insertable.name, "InsertableArtist");
    assert_eq!(g.insertable.fields, vec![plain(1)]);
    match g.insert {
        InsertPlan::Static(p) => {
            assert_eq!(p.sql, "INSERT INTO public.artist (name) VALUES ($1) RETURNING *");
            assert_eq!(p.params, vec![1]);
        }
        InsertPlan::Dynamic { .. } => panic!("expected a fixed insert"),
    }
}

#[test]
fn it_should_return_the_entity_if_present() {
    let g = generate(&artist());
    assert_eq!(g.fetch.sql, "SELECT id, name, slug FROM public.artist WHERE id = $1");
    assert_eq!(g.fetch.params, vec![0]);
    assert_eq!(g.pk.name, "ArtistPk");
    assert_eq!(g.pk.fields, vec![plain(0)]);
}

#[test]
fn it_should_update_a_entity() {
    let g = generate(&artist());
    let update = g.update.expect("an update");
    assert_eq!(update.sql, "UPDATE public.artist SET name = $2 WHERE id = $1 RETURNING id, name, slug");
    assert_eq!(update.params, vec![0, 1]);
    let shape = g.updatable.expect("an update record");
    assert_eq!(shape.name, "UpdatableArtist");
    assert_eq!(shape.fields, vec![plain(0), plain(1)]);
}

#[test]
fn it_should_delete_the_entity() {
    let g = generate(&artist());
    assert_eq!(g.delete.sql, "DELETE FROM public.artist WHERE id = $1");
    assert_eq!(g.delete.params, vec![0]);
}

#[test]
fn it_should_list_all_entities() {
    let g = generate(&artist());
    assert_eq!(g.stream.sql, "SELECT id, name, slug FROM public.artist");
    assert!(g.stream.params.is_empty());
}

#[test]
fn it_should_generate_an_unit_struct_if_no_fields_can_be_inserted() {
    let m = table("GeneratedOnly", "public.generated_only", vec![field("id", true, true, false)], None);
    let g = generate(&m);
    assert_eq!(g.insertable.name, "InsertableGeneratedOnly");
    assert!(g.insertable.fields.is_empty());
    match g.insert {
        InsertPlan::Static(p) => {
            assert_eq!(p.sql, "INSERT INTO public.generated_only DEFAULT VALUES RETURNING *");
            assert!(p.params.is_empty());
        }
        InsertPlan::Dynamic { .. } => panic!("expected a fixed insert"),
    }
    assert!(g.update.is_none());
    assert!(g.updatable.is_none());
}

#[test]
fn only_key_fields_get_no_update() {
    let m = table("ArtistType", "public.artist_type", vec![field("name", true, false, false)], None);
    let g = generate(&m);
    assert!(g.update.is_none());
    assert!(g.updatable.is_none());
    match g.insert {
        InsertPlan::Static(p) => {
            assert_eq!(p.sql, "INSERT INTO public.artist_type (name) VALUES ($1) RETURNING *");
            assert_eq!(p.params, vec![0]);
        }
        InsertPlan::Dynamic { .. } => panic!("expected a fixed insert"),
    }
}

#[test]
fn it_should_use_multiple_fields_if_multiple_pks_are_set() {
    let m = table(
        "ArtistRelease",
        "public.artist_release",
        vec![field("artist_id", true, false, false), field("release_id", true, false, false)],
        None,
    );
    let g = generate(&m);
    assert_eq!(
        g.fetch.sql,
        "SELECT artist_id, release_id FROM public.artist_release WHERE artist_id = $1 AND release_id = $2"
    );
    assert_eq!(g.fetch.params, vec![0, 1]);
    assert_eq!(g.delete.sql, "DELETE FROM public.artist_release WHERE artist_id = $1 AND release_id = $2");
    assert_eq!(g.delete.params, vec![0, 1]);
    assert_eq!(g.pk.name, "ArtistReleasePk");
    assert_eq!(g.pk.fields, vec![plain(0), plain(1)]);
    assert!(g.update.is_none());
}

#[test]
fn keys_are_numbered_before_settable_fields() {
    let m = table(
        "Membership",
        "membership",
        vec![
            field("note", false, false, false),
            field("group_id", true, false, false),
            field("rank", false, false, false),
            field("user_id", true, false, false),
        ],
        None,
    );
    let g = generate(&m);
    let update = g.update.expect("an update");
    assert_eq!(
        update.sql,
        "UPDATE membership SET note = $3, rank = $4 WHERE group_id = $1 AND user_id = $2 RETURNING note, group_id, rank, user_id"
    );
    assert_eq!(update.params, vec![1, 3, 0, 2]);
    assert_eq!(g.updatable.expect("an update record").fields, vec![plain(0), plain(1), plain(2), plain(3)]);
}

#[test]
fn it_should_use_the_default_for_defaultable_default() {
    let m = table(
        "Defaultable",
        "public.defaultable",
        vec![field("id", true, true, false), field("name", false, false, true)],
        None,
    );
    let g = generate(&m);
    assert_eq!(g.insertable.fields, vec![ShapeField { field: 1, defaultable: true }]);
    match g.insert {
        InsertPlan::Dynamic { static_fields, optional_fields } => {
            assert!(static_fields.is_empty());
            assert_eq!(optional_fields, vec![1]);
        }
        InsertPlan::Static(_) => panic!("expected an insert assembled per call"),
    }
    let name: Defaultable<String> = Defaultable::Default;
    let mut columns = InsertColumns::new(vec![]);
    columns.push_optional("name", name.is_value());
    assert!(columns.columns().is_empty());
    assert_eq!(columns.statement("public.defaultable"), "INSERT INTO public.defaultable DEFAULT VALUES RETURNING *");
}

#[test]
fn it_should_use_the_value_for_defaultable_value() {
    let name = Defaultable::Value("Some name".to_string());
    let mut columns = InsertColumns::new(vec![]);
    columns.push_optional("name", name.is_value());
    assert_eq!(columns.columns(), &vec!["name".to_string()]);
    assert_eq!(columns.statement("public.defaultable"), "INSERT INTO public.defaultable (name) VALUES ($1) RETURNING *");
}

#[test]
fn optional_columns_follow_the_static_ones() {
    let columns = insert_columns(
        vec!["value".to_string()],
        &vec![("a".to_string(), true), ("b".to_string(), false), ("c".to_string(), true)],
    );
    assert_eq!(columns.columns(), &vec!["value".to_string(), "a".to_string(), "c".to_string()]);
    assert_eq!(columns.statement("t"), "INSERT INTO t (value, a, c) VALUES ($1, $2, $3) RETURNING *");
    let none = insert_columns(vec![], &vec![("a".to_string(), false)]);
    assert_eq!(none.statement("t"), "INSERT INTO t DEFAULT VALUES RETURNING *");
}

#[test]
fn it_should_insert_an_enum() {
    let mut mood = field("current_mood", false, false, false);
    mood.ty = "Mood".to_string();
    mood.cast = Some("Mood".to_string());
    let mut name = field("name", true, false, false);
    name.ty = "String".to_string();
    let m = table("Person", "public.person", vec![name, mood], None);
    let g = generate(&m);
    match g.insert {
        InsertPlan::Static(p) => {
            assert_eq!(p.sql, "INSERT INTO public.person (name, current_mood) VALUES ($1, $2) RETURNING *");
            assert_eq!(p.params, vec![0, 1]);
        }
        InsertPlan::Dynamic { .. } => panic!("expected a fixed insert"),
    }
    assert_eq!(
        g.fetch.sql,
        "SELECT name, current_mood AS \"current_mood!: Mood\" FROM public.person WHERE name = $1"
    );
    assert_eq!(
        g.update.expect("an update").sql,
        "UPDATE public.person SET current_mood = $2 WHERE name = $1 RETURNING name, current_mood AS \"current_mood!: Mood\""
    );
}

#[test]
fn it_should_be_table_to_fetch_json_fields() {
    let mut json = field("json_value", false, false, false);
    json.cast = Some("Json<SerializedValue>".to_string());
    let m = table("SomeJsonValue", "public.some_json_table", vec![field("id", true, true, false), json], None);
    assert_eq!(
        generate(&m).fetch.sql,
        "SELECT id, json_value AS \"json_value!: Json<SerializedValue>\" FROM public.some_json_table WHERE id = $1"
    );
}

fn soft_delete() -> TableMetadata {
    let mut deleted_at = field("deleted_at", false, false, true);
    deleted_at.ty = "Option<NaiveDateTime>".to_string();
    table(
        "SoftDelete",
        "public.soft_delete",
        vec![field("id", true, true, false), field("value", false, false, false), deleted_at],
        Some("deleted_at"),
    )
}

#[test]
fn it_should_retain_soft_delete_entities_by_setting_deleted_at() {
    let g = generate(&soft_delete());
    assert_eq!(g.delete.sql, "UPDATE public.soft_delete SET deleted_at = NOW() WHERE id = $1");
    assert_eq!(g.delete.params, vec![0]);
}

#[test]
fn it_should_not_list_soft_deleted_entities() {
    let g = generate(&soft_delete());
    assert_eq!(g.stream.sql, "SELECT id, value, deleted_at FROM public.soft_delete WHERE deleted_at IS NULL");
}

#[test]
fn it_should_not_fetch_soft_deleted_entities() {
    let g = generate(&soft_delete());
    assert_eq!(
        g.fetch.sql,
        "SELECT id, value, deleted_at FROM public.soft_delete WHERE id = $1 AND deleted_at IS NULL"
    );
}

#[test]
fn it_should_return_row_not_found_if_the_entity_is_soft_deleted() {
    let g = generate(&soft_delete());
    let update = g.update.expect("an update");
    assert_eq!(
        update.sql,
        "UPDATE public.soft_delete SET value = $2 WHERE id = $1 AND deleted_at IS NULL RETURNING id, value, deleted_at"
    );
    assert_eq!(update.params, vec![0, 1]);
    assert_eq!(g.updatable.expect("an update record").fields, vec![plain(0), plain(1)]);
    match g.insert {
        InsertPlan::Dynamic { static_fields, optional_fields } => {
            assert_eq!(static_fields, vec![1]);
            assert_eq!(optional_fields, vec![2]);
        }
        InsertPlan::Static(_) => panic!("expected an insert assembled per call"),
    }
}

#[test]
fn placeholders_past_nine_use_several_digits() {
    let mut fields = vec![];
    for i in 0..12 {
        fields.push(field(&format!("c{i}"), i < 11, false, false));
    }
    let m = table("Wide", "wide", fields, None);
    let fetch = generate(&m).fetch.sql;
    assert!(fetch.ends_with("c9 = $10 AND c10 = $11"));
    let update = generate(&m).update.expect("an update").sql;
    assert!(update.starts_with("UPDATE wide SET c11 = $12 WHERE c0 = $1"));
    let mut s = String::from("n=");
    push_decimal(&mut s, 1907);
    assert_eq!(s, "n=1907");
    let mut p = String::new();
    push_placeholder(&mut p, 0);
    assert_eq!(p, "$0");
}

#[test]
fn join_puts_the_separator_between_parts() {
    assert_eq!(join_strings(&vec![], ", "), "");
    assert_eq!(join_strings(&vec!["a".to_string()], ", "), "a");
    assert_eq!(join_strings(&vec!["a".to_string(), "b".to_string(), "c".to_string()], " AND "), "a AND b AND c");
    assert_eq!(insert_statement("t", &vec!["x".to_string()]), "INSERT INTO t (x) VALUES ($1) RETURNING *");
}

#[test]
fn roles_select_in_declaration_order() {
    let m = soft_delete();
    assert_eq!(m.fields_in(Role::Insertable), vec![1, 2]);
    assert_eq!(m.fields_in(Role::StaticInsert), vec![1]);
    assert_eq!(m.fields_in(Role::OptionalInsert), vec![2]);
    assert_eq!(m.fields_in(Role::Key), vec![0]);
    assert_eq!(m.fields_in(Role::Settable), vec![1]);
    assert_eq!(m.fields_in(Role::Updatable), vec![0, 1]);
    assert_eq!(m.columns(), "id, value, deleted_at");
}

#[test]
fn parse_accepts_a_named_struct() {
    let mut pk = raw_field(Some("id"), true);
    pk.generated = true;
    pk.cast = Some("i64".to_string());
    let r = raw(Some(vec![pk, raw_field(Some("deleted_at"), false)]), Some("things"), Some("deleted_at"));
    let m = TableMetadata::parse(&r).expect("a valid declaration");
    assert_eq!(m.table, "things");
    assert_eq!(m.ident, "Entity");
    assert_eq!(m.fields.len(), 2);
    assert_eq!(m.fields[0].name, "id");
    assert!(m.fields[0].is_primary_key && m.fields[0].is_generated);
    assert_eq!(m.fields[0].cast, Some("i64".to_string()));
    assert_eq!(m.soft_delete, Some("deleted_at".to_string()));
    let (_, g) = generate_from(&r).expect("generated");
    assert_eq!(g.delete.sql, "UPDATE things SET deleted_at = NOW() WHERE id = $1");
}

#[test]
fn parse_refuses_what_is_not_a_named_struct() {
    assert_eq!(TableMetadata::parse(&raw(None, Some("t"), None)).err(), Some(MetadataError::InvalidApplication));
    assert_eq!(TableMetadata::parse(&raw(Some(vec![]), Some("t"), None)).err(), Some(MetadataError::InvalidApplication));
    let tuple = raw(Some(vec![raw_field(None, true)]), Some("t"), None);
    assert_eq!(TableMetadata::parse(&tuple).err(), Some(MetadataError::InvalidApplication));
    assert_eq!(generate_from(&tuple).err(), Some(MetadataError::InvalidApplication));
}

#[test]
fn parse_refuses_a_missing_table() {
    let fields = || Some(vec![raw_field(Some("id"), true)]);
    assert_eq!(TableMetadata::parse(&raw(fields(), None, None)).err(), Some(MetadataError::MissingTableName));
    assert_eq!(TableMetadata::parse(&raw(fields(), Some(""), None)).err(), Some(MetadataError::MissingTableName));
}

#[test]
fn parse_refuses_duplicate_fields() {
    let r = raw(Some(vec![raw_field(Some("id"), true), raw_field(Some("id"), false)]), Some("t"), None);
    assert_eq!(TableMetadata::parse(&r).err(), Some(MetadataError::DuplicateField));
}

#[test]
fn parse_refuses_a_dangling_soft_delete_column() {
    let r = raw(Some(vec![raw_field(Some("id"), true)]), Some("t"), Some("deleted_at"));
    assert_eq!(TableMetadata::parse(&r).err(), Some(MetadataError::DanglingSoftDeleteReference));
}

#[test]
fn parse_refuses_a_record_without_key() {
    let r = raw(Some(vec![raw_field(Some("id"), false)]), Some("t"), None);
    assert_eq!(TableMetadata::parse(&r).err(), Some(MetadataError::MissingPrimaryKey));
    assert!(MetadataError::MissingPrimaryKey.message().contains("pk"));
}

#[test]
fn defaultable_tells_value_from_default() {
    assert!(Defaultable::Value(None::<i32>).is_value());
    assert!(!Defaultable::<i32>::Default.is_value());
}

#[test]
fn invalid_application_explains_itself() {
    assert_eq!(
        MetadataError::InvalidApplication.message(),
        "The `Entity` macro can only be applied to a struct with named fields"
    );
}

#[test]
fn a_positional_field_is_refused() {
    assert_eq!(FieldSpec::from_raw(&raw_field(None, false)).err(), Some(MetadataError::InvalidApplication));
    let mut named = raw_field(Some("synonyms"), false);
    named.deref = true;
    named.default = true;
    let f = FieldSpec::from_raw(&named).expect("a named field");
    assert_eq!(f.name, "synonyms");
    assert!(f.needs_dereference && f.is_default_capable && !f.is_primary_key);
}
