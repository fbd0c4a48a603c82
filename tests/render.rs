use datamodel_renderer::attribute::{FieldAttribute, Value};
use datamodel_renderer::composite_type::{CompositeType, CompositeTypeField};
use datamodel_renderer::field::{Arity, FieldType};
use datamodel_renderer::legacy::{
    CompositeField, LegacyCompositeType, LegacyCompositeTypeField, LegacyField, LegacyFieldType,
    NativeTypeInstance, RelationField, RelationInfo, ScalarField, UniqueEntry,
};
use datamodel_renderer::model_field::ModelField;
use datamodel_renderer::payload::{
    DefaultValue, IdFieldDefinition, IndexFieldOptions, ReferentialAction, Relation, SortOrder,
};

#[test]
fn kitchen_sink() {
    let mut composite_type = CompositeType::new("Address");
    composite_type.documentation("...so many tears 🎵");

    let mut field = CompositeTypeField::new("Street", "String");
    field.native_type("db", "VarChar", vec!["255".to_string()]);
    field.default(DefaultValue::text("Prenzlauer Allee 193"));
    field.map("Shield");
    composite_type.push_field(field);

    let field = CompositeTypeField::new("Number", "Int");
    composite_type.push_field(field);

    let mut field = CompositeTypeField::new("City", "String");
    field.optional();
    field.documentation("...soooooooo many tears 🎵");
    composite_type.push_field(field);

    let mut field = CompositeTypeField::new("Other", "String");
    field.array();
    composite_type.push_field(field);

    let mut field = CompositeTypeField::new("Invalid", "Float");
    field.map("1Invalid");
    composite_type.push_field(field);

    let mut field = CompositeTypeField::new("11111", "Float");
    field.commented_out();
    field.map("11111");
    composite_type.push_field(field);

    let expected = "/// ...so many tears 🎵\n\
type Address {\n\
Street String @default(\"Prenzlauer Allee 193\") @map(\"Shield\") @db.VarChar(255)\n\
Number Int\n\
/// ...soooooooo many tears 🎵\n\
City String?\n\
Other String[]\n\
Invalid Float @map(\"1Invalid\")\n\
// 11111 Float @map(\"11111\")\n\
}\n";
    assert_eq!(composite_type.render(), expected);
}

#[test]
fn rendering_twice_gives_the_same_text() {
    let mut f = ModelField::new("id", "Int");
    f.id(IdFieldDefinition::new(IndexFieldOptions::new()));
    f.default(DefaultValue::function("autoincrement"));
    let a = f.render();
    let b = f.render();
    assert_eq!(a, b);
    assert_eq!(a, "id Int @id @default(autoincrement())");
}

#[test]
fn attributes_render_in_fixed_order_whatever_the_call_order() {
    let mut a = ModelField::new("f", "DateTime");
    a.ignore();
    a.native_type("db", "Timestamp", vec!["6".to_string()]);
    a.map("f_col");
    a.default(DefaultValue::function("now"));
    a.unique(IndexFieldOptions::new());
    a.updated_at();

    let mut b = ModelField::new("f", "DateTime");
    b.updated_at();
    b.unique(IndexFieldOptions::new());
    b.default(DefaultValue::function("now"));
    b.map("f_col");
    b.native_type("db", "Timestamp", vec!["6".to_string()]);
    b.ignore();

    let expected = "f DateTime @updatedAt @unique @default(now()) @map(\"f_col\") @db.Timestamp(6) @ignore";
    assert_eq!(a.render(), expected);
    assert_eq!(b.render(), expected);
}

#[test]
fn last_arity_wins() {
    let mut f = ModelField::new("tags", "String");
    f.optional();
    f.array();
    assert_eq!(f.render(), "tags String[]");
    let mut g = ModelField::new("tags", "String");
    g.array();
    g.optional();
    assert_eq!(g.render(), "tags String?");
}

#[test]
fn commented_out_field_keeps_its_attributes() {
    let mut f = ModelField::new("a", "Int");
    f.map("b");
    f.ignore();
    let plain = f.render();
    f.commented_out();
    assert_eq!(f.render(), format!("// {plain}"));
    assert_eq!(f.render(), "// a Int @map(\"b\") @ignore");
}

#[test]
fn unsupported_type_wraps_the_name_before_the_suffix() {
    let mut f = ModelField::new("geom", "geometry");
    f.unsupported();
    f.optional();
    assert_eq!(f.render(), "geom Unsupported(\"geometry\")?");
    let mut t = FieldType::required("x\"y");
    t.into_unsupported();
    t.set_arity(Arity::List);
    assert_eq!(t.render(), "Unsupported(\"x\\\"y\")[]");
}

#[test]
fn strings_are_escaped() {
    let mut f = ModelField::new("a", "String");
    f.default(DefaultValue::text("say \"hi\" \\ bye"));
    assert_eq!(f.render(), "a String @default(\"say \\\"hi\\\" \\\\ bye\")");
}

#[test]
fn documentation_appends() {
    let mut f = ModelField::new("a", "Int");
    f.documentation("first");
    f.documentation("second");
    assert_eq!(f.render(), "/// first\n/// second\na Int");
}

#[test]
fn documentation_with_line_breaks_continues_each_line() {
    let mut t = CompositeType::new("T");
    t.documentation("one\ntwo");
    assert_eq!(t.render(), "/// one\n/// two\ntype T {\n}\n");
}

#[test]
fn unique_renders_all_options_in_order() {
    let mut f = ModelField::new("email", "String");
    let options = IndexFieldOptions {
        map: Some("email_key".to_string()),
        sort_order: Some(SortOrder::Desc),
        length: Some(1234),
        clustered: Some(false),
    };
    f.unique(options);
    assert_eq!(
        f.render(),
        "email String @unique(map: \"email_key\", sort: Desc, length: 1234, clustered: false)"
    );
}

#[test]
fn id_with_options() {
    let mut f = ModelField::new("id", "Int");
    let mut options = IndexFieldOptions::new();
    options.sort_order = Some(SortOrder::Asc);
    options.clustered = Some(true);
    f.id(IdFieldDefinition::new(options));
    assert_eq!(f.render(), "id Int @id(sort: Asc, clustered: true)");
}

#[test]
fn decimal_numbers() {
    assert_eq!(Value::Number(0).render(), "0");
    assert_eq!(Value::Number(10).render(), "10");
    assert_eq!(Value::Number(4294967295).render(), "4294967295");
    assert_eq!(Value::Boolean(true).render(), "true");
    assert_eq!(Value::List(vec!["a".to_string(), "b".to_string()]).render(), "[a, b]");
    assert_eq!(Value::List(vec![]).render(), "[]");
}

#[test]
fn attribute_forms() {
    let a = FieldAttribute::new("ignore");
    assert_eq!(a.render(), "@ignore");
    let mut b = FieldAttribute::new("VarChar");
    b.push_param(&Value::Constant("255".to_string()));
    b.push_named("x", &Value::Text("y".to_string()));
    b.prefix("db");
    assert_eq!(b.render(), "@db.VarChar(255, x: \"y\")");
}

#[test]
fn relation_renders_its_parts_in_order() {
    let mut r = Relation::new();
    r.map = Some("fk".to_string());
    r.on_update = Some(ReferentialAction::NoAction);
    r.on_delete = Some(ReferentialAction::Cascade);
    r.references = vec!["id".to_string()];
    r.fields = vec!["user_id".to_string(), "org".to_string()];
    r.name = Some("UserPosts".to_string());
    let mut f = ModelField::new("user", "User");
    f.relation(r);
    assert_eq!(
        f.render(),
        "user User @relation(\"UserPosts\", fields: [user_id, org], references: [id], onDelete: Cascade, onUpdate: NoAction, map: \"fk\")"
    );
}

fn relation_field(name: &str, fields: Vec<String>, references: Vec<String>) -> LegacyField {
    LegacyField::Relation(RelationField {
        name: "author".to_string(),
        arity: Arity::Optional,
        documentation: None,
        is_ignored: false,
        relation_info: RelationInfo {
            referenced_model: "User".to_string(),
            name: name.to_string(),
            fields,
            references,
            on_delete: Some(ReferentialAction::SetNull),
            on_update: None,
            fk_name: None,
        },
    })
}

#[test]
fn anonymous_relation_gets_no_attribute() {
    let f = relation_field("", vec![], vec![]);
    let r = ModelField::from_dml("db", &f, &vec![], None);
    assert_eq!(r.render(), "author User?");
}

#[test]
fn named_relation_gets_an_attribute() {
    let f = relation_field("", vec!["author_id".to_string()], vec!["id".to_string()]);
    let r = ModelField::from_dml("db", &f, &vec![], None);
    assert_eq!(
        r.render(),
        "author User? @relation(fields: [author_id], references: [id], onDelete: SetNull)"
    );
    let g = relation_field("Writes", vec![], vec![]);
    let s = ModelField::from_dml("db", &g, &vec![], None);
    assert_eq!(s.render(), "author User? @relation(\"Writes\", onDelete: SetNull)");
}

fn scalar(name: &str) -> ScalarField {
    ScalarField {
        name: name.to_string(),
        arity: Arity::Required,
        field_type: LegacyFieldType::Scalar(
            "String".to_string(),
            Some(NativeTypeInstance { name: "VarChar".to_string(), args: vec!["191".to_string()] }),
        ),
        documentation: Some("the mail".to_string()),
        default_value: Some(Value::Text("x".to_string())),
        is_updated_at: true,
        is_ignored: true,
        is_commented_out: true,
        database_name: Some("mail".to_string()),
    }
}

#[test]
fn adapter_keeps_every_scalar_property() {
    let f = LegacyField::Scalar(scalar("email"));
    let uniques = vec![UniqueEntry {
        field: "email".to_string(),
        options: IndexFieldOptions { map: None, sort_order: None, length: Some(10), clustered: None },
    }];
    let r = ModelField::from_dml("mysql", &f, &uniques, Some(IdFieldDefinition::new(IndexFieldOptions::new())));
    assert_eq!(
        r.render(),
        "/// the mail\n// email String @updatedAt @unique(length: 10) @id @default(\"x\") @map(\"mail\") @mysql.VarChar(191) @ignore"
    );
}

#[test]
fn unique_table_miss_gives_no_unique() {
    let mut sf = scalar("name");
    sf.documentation = None;
    sf.default_value = None;
    sf.is_updated_at = false;
    sf.is_ignored = false;
    sf.is_commented_out = false;
    sf.database_name = None;
    sf.arity = Arity::List;
    let uniques = vec![UniqueEntry { field: "email".to_string(), options: IndexFieldOptions::new() }];
    let r = ModelField::from_dml("db", &LegacyField::Scalar(sf), &uniques, None);
    assert_eq!(r.render(), "name String[] @db.VarChar(191)");
}

#[test]
fn adapter_unsupported_and_enum_types() {
    let mut sf = scalar("g");
    sf.field_type = LegacyFieldType::Unsupported("point".to_string());
    sf.documentation = None;
    sf.default_value = None;
    sf.is_updated_at = false;
    sf.is_commented_out = false;
    sf.database_name = None;
    let r = ModelField::from_dml("db", &LegacyField::Scalar(sf), &vec![], None);
    assert_eq!(r.render(), "g Unsupported(\"point\") @ignore");

    let mut e = scalar("role");
    e.field_type = LegacyFieldType::Enum("Role".to_string());
    e.documentation = None;
    e.default_value = Some(Value::Constant("USER".to_string()));
    e.is_updated_at = false;
    e.is_ignored = false;
    e.is_commented_out = false;
    e.database_name = None;
    let r = ModelField::from_dml("db", &LegacyField::Scalar(e), &vec![], None);
    assert_eq!(r.render(), "role Role @default(USER)");
}

#[test]
fn adapter_composite_field() {
    let f = LegacyField::Composite(CompositeField {
        name: "address".to_string(),
        arity: Arity::List,
        composite_type: "Address".to_string(),
        documentation: None,
        default_value: None,
        is_ignored: true,
        is_commented_out: false,
        database_name: Some("addr".to_string()),
    });
    let r = ModelField::from_dml("db", &f, &vec![], None);
    assert_eq!(r.render(), "address Address[] @map(\"addr\") @ignore");
}

#[test]
fn adapter_composite_type() {
    let ct = LegacyCompositeType {
        name: "Address".to_string(),
        fields: vec![
            LegacyCompositeTypeField {
                name: "street".to_string(),
                arity: Arity::Required,
                field_type: LegacyFieldType::Scalar(
                    "String".to_string(),
                    Some(NativeTypeInstance { name: "ObjectId".to_string(), args: vec![] }),
                ),
                documentation: None,
                default_value: None,
                database_name: Some("s".to_string()),
                is_commented_out: false,
            },
            LegacyCompositeTypeField {
                name: "zip".to_string(),
                arity: Arity::Optional,
                field_type: LegacyFieldType::Scalar("Int".to_string(), None),
                documentation: Some("code".to_string()),
                default_value: Some(Value::Number(0)),
                database_name: None,
                is_commented_out: true,
            },
        ],
    };
    let r = CompositeType::from_dml("mongo", &ct);
    assert_eq!(
        r.render(),
        "type Address {\nstreet String @map(\"s\") @mongo.ObjectId\n/// code\n// zip Int? @default(0)\n}\n"
    );
}

#[test]
fn empty_block() {
    let t = CompositeType::new("Empty");
    assert_eq!(t.render(), "type Empty {\n}\n");
}
