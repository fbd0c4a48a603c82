//! Fields of a model block.
use vstd::prelude::*;
use crate::attribute::{attribute_text, texts, FieldAttribute, Value};
use crate::field::{
    slot_of, slots_text, write_head, write_slot, Arity, FieldType, FieldTypeView, FieldView,
};
use crate::payload::{index_view, relation_view, DefaultValue, IdFieldDefinition, IndexFieldOptions, Relation};
use crate::text::quoted;

verus! {

/// Slot of `@updatedAt`; the slots render in the order of their numbers.
pub const UPDATED_AT_SLOT: usize = 0;
/// Slot of `@unique(...)`.
pub const UNIQUE_SLOT: usize = 1;
/// Slot of `@id(...)`.
pub const ID_SLOT: usize = 2;
/// Slot of `@default(...)`.
pub const DEFAULT_SLOT: usize = 3;
/// Slot of `@map(...)`.
pub const MAP_SLOT: usize = 4;
/// Slot of `@relation(...)`.
pub const RELATION_SLOT: usize = 5;
/// Slot of the native type attribute `@prefix.Type(...)`.
pub const NATIVE_TYPE_SLOT: usize = 6;
/// Slot of `@ignore`.
pub const IGNORE_SLOT: usize = 7;
/// The number of attribute slots of a model field.
pub const MODEL_SLOTS: usize = 8;

/// The attribute `@map("value")`.
pub open spec fn map_text(value: Seq<char>) -> Seq<char> {
    attribute_text(None, "map"@, seq![quoted(value)])
}

/// A native type attribute: `@prefix.Type(param, ...)`.
pub open spec fn native_type_text(prefix: Seq<char>, name: Seq<char>, params: Seq<Seq<char>>) -> Seq<char> {
    attribute_text(Some(prefix), name, params)
}

/// An attribute without arguments: `@name`.
pub open spec fn bare_text(name: Seq<char>) -> Seq<char> {
    attribute_text(None, name, Seq::empty())
}

/// A field in a model block.
pub struct ModelField {
    name: String,
    commented_out: bool,
    field_type: FieldType,
    documentation: Vec<String>,
    updated_at: Option<FieldAttribute>,
    unique: Option<FieldAttribute>,
    id: Option<FieldAttribute>,
    default: Option<FieldAttribute>,
    map: Option<FieldAttribute>,
    relation: Option<FieldAttribute>,
    native_type: Option<FieldAttribute>,
    ignore: Option<FieldAttribute>,
}

impl View for ModelField {
    type V = FieldView;

    closed spec fn view(&self) -> FieldView {
        FieldView {
            name: self.name@,
            ty: self.field_type@,
            docs: texts(self.documentation@),
            commented_out: self.commented_out,
            slots: seq![
                slot_of(self.updated_at),
                slot_of(self.unique),
                slot_of(self.id),
                slot_of(self.default),
                slot_of(self.map),
                slot_of(self.relation),
                slot_of(self.native_type),
                slot_of(self.ignore),
            ],
        }
    }
}

impl ModelField {
    /// A new required field `name base_type`.
    pub fn new(name: &str, base_type: &str) -> (r: ModelField)
        ensures
            r@ == FieldView::fresh(name@, base_type@, MODEL_SLOTS as nat),
    {
        let r = ModelField {
            name: String::from_str(name),
            commented_out: false,
            field_type: FieldType::required(base_type),
            documentation: Vec::new(),
            updated_at: None,
            unique: None,
            id: None,
            default: None,
            map: None,
            relation: None,
            native_type: None,
            ignore: None,
        };
        assert(r@.docs =~= Seq::empty());
        assert(r@.slots =~= FieldView::fresh(name@, base_type@, MODEL_SLOTS as nat).slots);
        r
    }

    /// Makes the field optional: `Type?`. The last arity set wins.
    pub fn optional(&mut self)
        ensures
            final(self)@ == old(self)@.with_arity(Arity::Optional),
    {
        self.field_type.set_arity(Arity::Optional);
    }

    /// Makes the field a list: `Type[]`. The last arity set wins.
    pub fn array(&mut self)
        ensures
            final(self)@ == old(self)@.with_arity(Arity::List),
    {
        self.field_type.set_arity(Arity::List);
    }

    /// Makes the field's type unsupported: `Unsupported("Type")`.
    pub fn unsupported(&mut self)
        ensures
            final(self)@ == (FieldView { ty: FieldTypeView { unsupported: true, ..old(self)@.ty }, ..old(self)@ }),
    {
        self.field_type.into_unsupported();
    }

    /// Sets the database name: `@map("value")`.
    pub fn map(&mut self, value: &str)
        ensures
            final(self)@ == old(self)@.with_slot(MAP_SLOT as int, map_text(value@)),
    {
        let mut a = FieldAttribute::new("map");
        a.push_param(&Value::Text(String::from_str(value)));
        assert(a@.text() == map_text(value@)) by {
            assert(Seq::<Seq<char>>::empty().push(quoted(value@)) =~= seq![quoted(value@)]);
        }
        self.map = Some(a);
        assert(self@.slots =~= old(self)@.slots.update(MAP_SLOT as int, Some(map_text(value@))));
    }

    /// Adds a documentation text; earlier texts are kept.
    pub fn documentation(&mut self, documentation: &str)
        ensures
            final(self)@ == (FieldView { docs: old(self)@.docs.push(documentation@), ..old(self)@ }),
    {
        self.documentation.push(String::from_str(documentation));
        assert(self@.docs =~= old(self)@.docs.push(documentation@));
    }

    /// Sets the default value: `@default(...)`.
    pub fn default(&mut self, value: DefaultValue)
        ensures
            final(self)@ == old(self)@.with_slot(DEFAULT_SLOT as int, value@.text()),
    {
        self.default = Some(value.attribute());
        assert(self@.slots =~= old(self)@.slots.update(DEFAULT_SLOT as int, Some(value@.text())));
    }

    /// Sets the native type: `@prefix.Type(params)`, each parameter as it is.
    pub fn native_type(&mut self, prefix: &str, native: &str, params: Vec<String>)
        ensures
            final(self)@ == old(self)@.with_slot(
                NATIVE_TYPE_SLOT as int,
                native_type_text(prefix@, native@, texts(params@)),
            ),
    {
        let mut a = FieldAttribute::new(native);
        let n = params.len();
        let mut i: usize = 0;
        while i < n
            invariant
                n == params@.len(),
                i <= n,
                a@.prefix is None,
                a@.name == native@,
                a@.args == texts(params@).subrange(0, i as int),
            decreases n - i,
        {
            a.push_param(&Value::Constant(params[i].clone()));
            assert(a@.args =~= texts(params@).subrange(0, i + 1));
            i = i + 1;
        }
        a.prefix(prefix);
        assert(texts(params@).subrange(0, n as int) =~= texts(params@));
        self.native_type = Some(a);
        assert(self@.slots =~= old(self)@.slots.update(
            NATIVE_TYPE_SLOT as int,
            Some(native_type_text(prefix@, native@, texts(params@))),
        ));
    }

    /// Marks the field as holding the update timestamp: `@updatedAt`.
    pub fn updated_at(&mut self)
        ensures
            final(self)@ == old(self)@.with_slot(UPDATED_AT_SLOT as int, bare_text("updatedAt"@)),
    {
        self.updated_at = Some(FieldAttribute::new("updatedAt"));
        assert(self@.slots =~= old(self)@.slots.update(UPDATED_AT_SLOT as int, Some(bare_text("updatedAt"@))));
    }

    /// Marks the field unique: `@unique(...)` with the given options.
    pub fn unique(&mut self, options: IndexFieldOptions)
        ensures
            final(self)@ == old(self)@.with_slot(UNIQUE_SLOT as int, index_view("unique"@, options).text()),
    {
        self.unique = Some(options.to_attribute("unique"));
        assert(self@.slots =~= old(self)@.slots.update(
            UNIQUE_SLOT as int,
            Some(index_view("unique"@, options).text()),
        ));
    }

    /// Marks the field as the model's id: `@id(...)`.
    pub fn id(&mut self, definition: IdFieldDefinition)
        ensures
            final(self)@ == old(self)@.with_slot(ID_SLOT as int, index_view("id"@, definition.options).text()),
    {
        self.id = Some(definition.to_attribute());
        assert(self@.slots =~= old(self)@.slots.update(
            ID_SLOT as int,
            Some(index_view("id"@, definition.options).text()),
        ));
    }

    /// Makes the field a relation: `@relation(...)`.
    pub fn relation(&mut self, relation: Relation)
        ensures
            final(self)@ == old(self)@.with_slot(RELATION_SLOT as int, relation_view(relation).text()),
    {
        self.relation = Some(relation.to_attribute());
        assert(self@.slots =~= old(self)@.slots.update(
            RELATION_SLOT as int,
            Some(relation_view(relation).text()),
        ));
    }

    /// Ignores the field: `@ignore`.
    pub fn ignore(&mut self)
        ensures
            final(self)@ == old(self)@.with_slot(IGNORE_SLOT as int, bare_text("ignore"@)),
    {
        self.ignore = Some(FieldAttribute::new("ignore"));
        assert(self@.slots =~= old(self)@.slots.update(IGNORE_SLOT as int, Some(bare_text("ignore"@))));
    }

    /// Comments the field out: its line starts with `// `.
    pub fn commented_out(&mut self)
        ensures
            final(self)@ == (FieldView { commented_out: true, ..old(self)@ }),
    {
        self.commented_out = true;
    }

    /// Appends the field's text to `out`.
    pub fn write(&self, out: &mut String)
        ensures
            final(out)@ == old(out)@ + self@.text(),
    {
        write_head(out, &self.documentation, self.commented_out, self.name.as_str(), &self.field_type);
        let ghost head = out@;
        let ghost acc: Seq<Option<Seq<char>>> = Seq::empty();
        assert(out@ =~= head + slots_text(acc));
        write_slot(out, &self.updated_at, Ghost(head), Ghost(acc));
        let ghost acc = acc.push(slot_of(self.updated_at));
        write_slot(out, &self.unique, Ghost(head), Ghost(acc));
        let ghost acc = acc.push(slot_of(self.unique));
        write_slot(out, &self.id, Ghost(head), Ghost(acc));
        let ghost acc = acc.push(slot_of(self.id));
        write_slot(out, &self.default, Ghost(head), Ghost(acc));
        let ghost acc = acc.push(slot_of(self.default));
        write_slot(out, &self.map, Ghost(head), Ghost(acc));
        let ghost acc = acc.push(slot_of(self.map));
        write_slot(out, &self.relation, Ghost(head), Ghost(acc));
        let ghost acc = acc.push(slot_of(self.relation));
        write_slot(out, &self.native_type, Ghost(head), Ghost(acc));
        let ghost acc = acc.push(slot_of(self.native_type));
        write_slot(out, &self.ignore, Ghost(head), Ghost(acc));
        let ghost acc = acc.push(slot_of(self.ignore));
        assert(acc =~= self@.slots);
        assert(out@ =~= old(out)@ + self@.text());
    }

    /// The field's text: documentation lines, then the declaration line.
    pub fn render(&self) -> (r: String)
        ensures
            r@ == self@.text(),
    {
        let mut out = String::new();
        self.write(&mut out);
        assert(out@ =~= self@.text());
        out
    }
}

} // verus!
