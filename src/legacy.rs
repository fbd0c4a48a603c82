//! The legacy field records produced by introspection, and the adapter that turns
//! them into field declarations.
use vstd::prelude::*;
use crate::attribute::{texts, Value};
use crate::composite_type::{CompositeType, CompositeTypeField, CompositeTypeView};
use crate::field::{Arity, FieldTypeView, FieldView};
use crate::model_field::{bare_text, map_text, native_type_text, ModelField};
use crate::payload::{
    copy_option_string, default_view, index_view, relation_view, DefaultValue, IdFieldDefinition, IndexFieldOptions,
    ReferentialAction, Relation,
};

verus! {

/// A database-specific type: its name and its arguments.
pub struct NativeTypeInstance {
    pub name: String,
    pub args: Vec<String>,
}

/// The type of a legacy scalar field.
pub enum LegacyFieldType {
    Enum(String),
    /// A relation, by the name of the referenced model.
    Relation(String),
    Unsupported(String),
    /// A scalar type, with its native type if there is one.
    Scalar(String, Option<NativeTypeInstance>),
    CompositeType(String),
}

impl LegacyFieldType {
    /// The base type name a field of this type gets.
    pub open spec fn base(&self) -> Seq<char> {
        match self {
            LegacyFieldType::Enum(s) => s@,
            LegacyFieldType::Relation(s) => s@,
            LegacyFieldType::Unsupported(s) => s@,
            LegacyFieldType::Scalar(s, _) => s@,
            LegacyFieldType::CompositeType(s) => s@,
        }
    }
}

/// A legacy scalar field.
pub struct ScalarField {
    pub name: String,
    pub arity: Arity,
    pub field_type: LegacyFieldType,
    pub documentation: Option<String>,
    pub default_value: Option<Value>,
    pub is_updated_at: bool,
    pub is_ignored: bool,
    pub is_commented_out: bool,
    pub database_name: Option<String>,
}

/// What a legacy relation field says of its relation.
pub struct RelationInfo {
    pub referenced_model: String,
    /// The relation's name; empty for an anonymous relation.
    pub name: String,
    pub fields: Vec<String>,
    pub references: Vec<String>,
    pub on_delete: Option<ReferentialAction>,
    pub on_update: Option<ReferentialAction>,
    pub fk_name: Option<String>,
}

/// A legacy relation field.
pub struct RelationField {
    pub name: String,
    pub arity: Arity,
    pub documentation: Option<String>,
    pub is_ignored: bool,
    pub relation_info: RelationInfo,
}

/// A legacy field whose type is a composite type.
pub struct CompositeField {
    pub name: String,
    pub arity: Arity,
    pub composite_type: String,
    pub documentation: Option<String>,
    pub default_value: Option<Value>,
    pub is_ignored: bool,
    pub is_commented_out: bool,
    pub database_name: Option<String>,
}

/// A legacy field of a model: one of three kinds.
pub enum LegacyField {
    Scalar(ScalarField),
    Relation(RelationField),
    Composite(CompositeField),
}

/// Precomputed options of a single-field unique constraint, by field name.
pub struct UniqueEntry {
    pub field: String,
    pub options: IndexFieldOptions,
}

/// The options of the first entry of the table for the named field, if any.
pub open spec fn unique_lookup(table: Seq<UniqueEntry>, name: Seq<char>) -> Option<IndexFieldOptions>
    decreases table.len(),
{
    if table.len() == 0 {
        None
    } else if table[0].field@ == name {
        Some(table[0].options)
    } else {
        unique_lookup(table.drop_first(), name)
    }
}

/// The documentation texts of an optional documentation.
pub open spec fn doc_seq(d: Option<String>) -> Seq<Seq<char>> {
    match d {
        Some(s) => seq![s@],
        None => Seq::empty(),
    }
}

/// A slot holding `t` where the flag is set.
pub open spec fn flag_slot(b: bool, t: Seq<char>) -> Option<Seq<char>> {
    if b {
        Some(t)
    } else {
        None
    }
}

/// The `@default` slot for an optional default value.
pub open spec fn default_slot(d: Option<Value>) -> Option<Seq<char>> {
    match d {
        Some(v) => Some(default_view(v.spec_text()).text()),
        None => None,
    }
}

/// The `@map` slot for an optional database name.
pub open spec fn map_slot(m: Option<String>) -> Option<Seq<char>> {
    match m {
        Some(s) => Some(map_text(s@)),
        None => None,
    }
}

/// The native type slot: set for a scalar type with a native type, in the datasource's namespace.
pub open spec fn native_slot(datasource: Seq<char>, t: LegacyFieldType) -> Option<Seq<char>> {
    match t {
        LegacyFieldType::Scalar(_, Some(nt)) => Some(native_type_text(datasource, nt.name@, texts(nt.args@))),
        _ => None,
    }
}

/// Whether a relation says anything worth an attribute: a name or a field list.
pub open spec fn relation_is_named(info: RelationInfo) -> bool {
    info.name@.len() > 0 || info.fields@.len() > 0 || info.references@.len() > 0
}

/// The relation descriptor a legacy relation becomes.
pub open spec fn relation_of(info: RelationInfo) -> Relation {
    Relation {
        name: if info.name@.len() > 0 {
            Some(info.name)
        } else {
            None
        },
        fields: info.fields,
        references: info.references,
        on_delete: info.on_delete,
        on_update: info.on_update,
        map: info.fk_name,
    }
}

/// The model field a legacy field becomes. Only a scalar field reads the unique
/// table and the id definition.
pub open spec fn adapted_model_field(
    datasource: Seq<char>,
    field: LegacyField,
    uniques: Seq<UniqueEntry>,
    id: Option<IdFieldDefinition>,
) -> FieldView {
    match field {
        LegacyField::Scalar(sf) => adapted_scalar(datasource, sf, uniques, id),
        LegacyField::Relation(rf) => adapted_relation(rf),
        LegacyField::Composite(cf) => adapted_composite(cf),
    }
}

/// The model field a legacy scalar field becomes.
pub open spec fn adapted_scalar(
    datasource: Seq<char>,
    sf: ScalarField,
    uniques: Seq<UniqueEntry>,
    id: Option<IdFieldDefinition>,
) -> FieldView {
        FieldView {
            name: sf.name@,
            ty: FieldTypeView {
                name: sf.field_type.base(),
                arity: sf.arity,
                unsupported: sf.field_type is Unsupported,
            },
            docs: doc_seq(sf.documentation),
            commented_out: sf.is_commented_out,
            slots: seq![
                flag_slot(sf.is_updated_at, bare_text("updatedAt"@)),
                match unique_lookup(uniques, sf.name@) {
                    Some(o) => Some(index_view("unique"@, o).text()),
                    None => None,
                },
                match id {
                    Some(d) => Some(index_view("id"@, d.options).text()),
                    None => None,
                },
                default_slot(sf.default_value),
                map_slot(sf.database_name),
                None,
                native_slot(datasource, sf.field_type),
                flag_slot(sf.is_ignored, bare_text("ignore"@)),
            ],
        }
}

/// The model field a legacy relation field becomes: its relation attribute only where
/// the relation has a name or a field list.
pub open spec fn adapted_relation(rf: RelationField) -> FieldView {
        FieldView {
            name: rf.name@,
            ty: FieldTypeView { name: rf.relation_info.referenced_model@, arity: rf.arity, unsupported: false },
            docs: doc_seq(rf.documentation),
            commented_out: false,
            slots: seq![
                None,
                None,
                None,
                None,
                None,
                if relation_is_named(rf.relation_info) {
                    Some(relation_view(relation_of(rf.relation_info)).text())
                } else {
                    None
                },
                None,
                flag_slot(rf.is_ignored, bare_text("ignore"@)),
            ],
        }
}

/// The model field a legacy composite field becomes.
pub open spec fn adapted_composite(cf: CompositeField) -> FieldView {
        FieldView {
            name: cf.name@,
            ty: FieldTypeView { name: cf.composite_type@, arity: cf.arity, unsupported: false },
            docs: doc_seq(cf.documentation),
            commented_out: cf.is_commented_out,
            slots: seq![
                None,
                None,
                None,
                default_slot(cf.default_value),
                map_slot(cf.database_name),
                None,
                None,
                flag_slot(cf.is_ignored, bare_text("ignore"@)),
            ],
        }
}

/// A copy of a list of strings.
fn copy_strings(v: &Vec<String>) -> (r: Vec<String>)
    ensures
        r@ == v@,
{
    let mut r: Vec<String> = Vec::new();
    let n = v.len();
    let mut i: usize = 0;
    while i < n
        invariant
            n == v@.len(),
            i <= n,
            r@ == v@.subrange(0, i as int),
        decreases n - i,
    {
        r.push(v[i].clone());
        assert(r@ =~= v@.subrange(0, i + 1));
        i = i + 1;
    }
    assert(v@.subrange(0, n as int) =~= v@);
    r
}

/// Looks a field up in the unique table: the options of the first entry for it.
pub fn find_unique(table: &Vec<UniqueEntry>, name: &String) -> (r: Option<IndexFieldOptions>)
    ensures
        r == unique_lookup(table@, name@),
{
    let n = table.len();
    let mut i: usize = 0;
    assert(table@.subrange(0, n as int) =~= table@);
    while i < n
        invariant
            n == table@.len(),
            i <= n,
            unique_lookup(table@, name@) == unique_lookup(table@.subrange(i as int, n as int), name@),
        decreases n - i,
    {
        let ghost rest = table@.subrange(i as int, n as int);
        assert(rest.drop_first() =~= table@.subrange(i + 1, n as int));
        if table[i].field == *name {
            return Some(table[i].options.duplicate());
        }
        i = i + 1;
    }
    None
}

/// A copy of a default value.
fn copy_value(v: &Value) -> (r: Value)
    ensures
        r.spec_text() == v.spec_text(),
{
    match v {
        Value::Text(s) => Value::Text(s.clone()),
        Value::Constant(s) => Value::Constant(s.clone()),
        Value::Number(n) => Value::Number(*n),
        Value::Boolean(b) => Value::Boolean(*b),
        Value::List(l) => Value::List(copy_strings(l)),
        Value::Call(s) => Value::Call(s.clone()),
    }
}

impl ModelField {
    /// The model field a legacy field becomes, with the native type attribute in the
    /// datasource's namespace. A scalar field takes its `@unique` options from the
    /// table and carries `@id` where `id` is given.
    pub fn from_dml(
        datasource: &str,
        field: &LegacyField,
        uniques: &Vec<UniqueEntry>,
        id: Option<IdFieldDefinition>,
    ) -> (r: ModelField)
        ensures
            r@ == adapted_model_field(datasource@, *field, uniques@, id),
    {
        match field {
            LegacyField::Scalar(sf) => ModelField::from_scalar(datasource, sf, uniques, id),
            LegacyField::Relation(rf) => ModelField::from_relation(rf),
            LegacyField::Composite(cf) => ModelField::from_composite(cf),
        }
    }

    /// The model field a legacy scalar field becomes.
    #[verifier::rlimit(60)]
    fn from_scalar(
        datasource: &str,
        sf: &ScalarField,
        uniques: &Vec<UniqueEntry>,
        id: Option<IdFieldDefinition>,
    ) -> (r: ModelField)
        ensures
            r@ == adapted_scalar(datasource@, *sf, uniques@, id),
    {
        let base = match &sf.field_type {
            LegacyFieldType::Enum(s) => s,
            LegacyFieldType::Relation(s) => s,
            LegacyFieldType::Unsupported(s) => s,
            LegacyFieldType::Scalar(s, _) => s,
            LegacyFieldType::CompositeType(s) => s,
        };
        let mut f = ModelField::new(sf.name.as_str(), base.as_str());
        match sf.arity {
            Arity::Optional => f.optional(),
            Arity::List => f.array(),
            Arity::Required => {},
        }
        match &sf.field_type {
            LegacyFieldType::Unsupported(_) => f.unsupported(),
            _ => {},
        }
        match &sf.documentation {
            Some(d) => f.documentation(d.as_str()),
            None => {},
        }
        match &sf.default_value {
            Some(v) => f.default(DefaultValue::new(v)),
            None => {},
        }
        match &sf.field_type {
            LegacyFieldType::Scalar(_, Some(nt)) => {
                f.native_type(datasource, nt.name.as_str(), copy_strings(&nt.args))
            },
            _ => {},
        }
        if sf.is_updated_at {
            f.updated_at();
        }
        match find_unique(uniques, &sf.name) {
            Some(o) => f.unique(o),
            None => {},
        }
        if sf.is_ignored {
            f.ignore();
        }
        if sf.is_commented_out {
            f.commented_out();
        }
        match &sf.database_name {
            Some(m) => f.map(m.as_str()),
            None => {},
        }
        match id {
            Some(d) => f.id(d),
            None => {},
        }
        assert(f@.docs =~= doc_seq(sf.documentation));
        assert(f@.slots =~= adapted_scalar(datasource@, *sf, uniques@, id).slots);
        f
    }

    /// The model field a legacy relation field becomes.
    fn from_relation(rf: &RelationField) -> (r: ModelField)
        ensures
            r@ == adapted_relation(*rf),
    {
        let info = &rf.relation_info;
        let mut f = ModelField::new(rf.name.as_str(), info.referenced_model.as_str());
        match rf.arity {
            Arity::Optional => f.optional(),
            Arity::List => f.array(),
            Arity::Required => {},
        }
        match &rf.documentation {
            Some(d) => f.documentation(d.as_str()),
            None => {},
        }
        if rf.is_ignored {
            f.ignore();
        }
        let named = info.name.unicode_len() > 0;
        if named || info.fields.len() > 0 || info.references.len() > 0 {
            let mut relation = Relation::new();
            if named {
                relation.name = Some(info.name.clone());
            }
            relation.fields = copy_strings(&info.fields);
            relation.references = copy_strings(&info.references);
            relation.on_delete = info.on_delete;
            relation.on_update = info.on_update;
            relation.map = copy_option_string(&info.fk_name);
            assert(relation_view(relation) == relation_view(relation_of(*info)));
            f.relation(relation);
        }
        assert(f@.docs =~= doc_seq(rf.documentation));
        assert(f@.slots =~= adapted_relation(*rf).slots);
        f
    }

    /// The model field a legacy composite field becomes.
    fn from_composite(cf: &CompositeField) -> (r: ModelField)
        ensures
            r@ == adapted_composite(*cf),
    {
        let mut f = ModelField::new(cf.name.as_str(), cf.composite_type.as_str());
        match cf.arity {
            Arity::Optional => f.optional(),
            Arity::List => f.array(),
            Arity::Required => {},
        }
        match &cf.documentation {
            Some(d) => f.documentation(d.as_str()),
            None => {},
        }
        match &cf.database_name {
            Some(m) => f.map(m.as_str()),
            None => {},
        }
        if cf.is_commented_out {
            f.commented_out();
        }
        if cf.is_ignored {
            f.ignore();
        }
        match &cf.default_value {
            Some(v) => f.default(DefaultValue::new(v)),
            None => {},
        }
        assert(f@.docs =~= doc_seq(cf.documentation));
        assert(f@.slots =~= adapted_composite(*cf).slots);
        f
    }
}

/// A legacy field of a composite type.
pub struct LegacyCompositeTypeField {
    pub name: String,
    pub arity: Arity,
    pub field_type: LegacyFieldType,
    pub documentation: Option<String>,
    pub default_value: Option<Value>,
    pub database_name: Option<String>,
    pub is_commented_out: bool,
}

/// A legacy composite type: a name and its fields in order.
pub struct LegacyCompositeType {
    pub name: String,
    pub fields: Vec<LegacyCompositeTypeField>,
}

/// The composite type field a legacy one becomes.
pub open spec fn adapted_type_field(datasource: Seq<char>, f: LegacyCompositeTypeField) -> FieldView {
    FieldView {
        name: f.name@,
        ty: FieldTypeView {
            name: f.field_type.base(),
            arity: f.arity,
            unsupported: f.field_type is Unsupported,
        },
        docs: doc_seq(f.documentation),
        commented_out: f.is_commented_out,
        slots: seq![
            default_slot(f.default_value),
            map_slot(f.database_name),
            native_slot(datasource, f.field_type),
            None,
        ],
    }
}

/// The type block a legacy composite type becomes.
pub open spec fn adapted_composite_type(datasource: Seq<char>, ct: LegacyCompositeType) -> CompositeTypeView {
    CompositeTypeView {
        name: ct.name@,
        docs: Seq::empty(),
        fields: ct.fields@.map_values(|f: LegacyCompositeTypeField| adapted_type_field(datasource, f)),
    }
}

impl CompositeTypeField {
    /// The composite type field a legacy one becomes, with the native type attribute
    /// in the datasource's namespace.
    #[verifier::rlimit(30)]
    pub fn from_dml(datasource: &str, field: &LegacyCompositeTypeField) -> (r: CompositeTypeField)
        ensures
            r@ == adapted_type_field(datasource@, *field),
    {
        let base = match &field.field_type {
            LegacyFieldType::Enum(s) => s,
            LegacyFieldType::Relation(s) => s,
            LegacyFieldType::Unsupported(s) => s,
            LegacyFieldType::Scalar(s, _) => s,
            LegacyFieldType::CompositeType(s) => s,
        };
        let mut f = CompositeTypeField::new(field.name.as_str(), base.as_str());
        match field.arity {
            Arity::Optional => f.optional(),
            Arity::List => f.array(),
            Arity::Required => {},
        }
        match &field.field_type {
            LegacyFieldType::Unsupported(_) => f.unsupported(),
            _ => {},
        }
        match &field.documentation {
            Some(d) => f.documentation(d.as_str()),
            None => {},
        }
        match &field.default_value {
            Some(v) => f.default(DefaultValue::new(v)),
            None => {},
        }
        match &field.field_type {
            LegacyFieldType::Scalar(_, Some(nt)) => {
                f.native_type(datasource, nt.name.as_str(), copy_strings(&nt.args))
            },
            _ => {},
        }
        match &field.database_name {
            Some(m) => f.map(m.as_str()),
            None => {},
        }
        if field.is_commented_out {
            f.commented_out();
        }
        assert(f@.docs =~= doc_seq(field.documentation));
        assert(f@.slots =~= adapted_type_field(datasource@, *field).slots);
        f
    }
}

impl CompositeType {
    /// The type block a legacy composite type becomes, its fields in their order.
    pub fn from_dml(datasource: &str, ct: &LegacyCompositeType) -> (r: CompositeType)
        ensures
            r@ == adapted_composite_type(datasource@, *ct),
    {
        let mut r = CompositeType::new(ct.name.as_str());
        let ghost target = adapted_composite_type(datasource@, *ct);
        let n = ct.fields.len();
        let mut i: usize = 0;
        while i < n
            invariant
                n == ct.fields@.len(),
                i <= n,
                target == adapted_composite_type(datasource@, *ct),
                r@.name == target.name,
                r@.docs == target.docs,
                r@.fields == target.fields.subrange(0, i as int),
            decreases n - i,
        {
            r.push_field(CompositeTypeField::from_dml(datasource, &ct.fields[i]));
            assert(r@.fields =~= target.fields.subrange(0, i + 1));
            i = i + 1;
        }
        assert(target.fields.subrange(0, n as int) =~= target.fields);
        assert(r@ == target);
        r
    }
}

} // verus!
