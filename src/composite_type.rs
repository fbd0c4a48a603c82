//! Composite type blocks (`type Name { ... }`) and their fields.
use vstd::prelude::*;
use crate::attribute::{texts, FieldAttribute, Value};
use crate::field::{
    docs_text, slot_of, slots_text, write_docs, write_head, write_slot, Arity, FieldType,
    FieldTypeView, FieldView,
};
use crate::model_field::{bare_text, map_text, native_type_text};
use crate::payload::DefaultValue;
use crate::text::quoted;

verus! {

/// Slot of `@default(...)` in a composite type field.
pub const COMPOSITE_DEFAULT_SLOT: usize = 0;
/// Slot of `@map(...)` in a composite type field.
pub const COMPOSITE_MAP_SLOT: usize = 1;
/// Slot of the native type attribute in a composite type field.
pub const COMPOSITE_NATIVE_TYPE_SLOT: usize = 2;
/// Slot of `@ignore` in a composite type field.
pub const COMPOSITE_IGNORE_SLOT: usize = 3;
/// The number of attribute slots of a composite type field.
pub const COMPOSITE_SLOTS: usize = 4;

/// A field in a composite type block.
pub struct CompositeTypeField {
    name: String,
    commented_out: bool,
    field_type: FieldType,
    documentation: Vec<String>,
    default: Option<FieldAttribute>,
    map: Option<FieldAttribute>,
    native_type: Option<FieldAttribute>,
    ignore: Option<FieldAttribute>,
}

impl View for CompositeTypeField {
    type V = FieldView;

    closed spec fn view(&self) -> FieldView {
        FieldView {
            name: self.name@,
            ty: self.field_type@,
            docs: texts(self.documentation@),
            commented_out: self.commented_out,
            slots: seq![
                slot_of(self.default),
                slot_of(self.map),
                slot_of(self.native_type),
                slot_of(self.ignore),
            ],
        }
    }
}

impl CompositeTypeField {
    /// A new required field `name base_type`.
    pub fn new(name: &str, base_type: &str) -> (r: CompositeTypeField)
        ensures
            r@ == FieldView::fresh(name@, base_type@, COMPOSITE_SLOTS as nat),
    {
        let r = CompositeTypeField {
            name: String::from_str(name),
            commented_out: false,
            field_type: FieldType::required(base_type),
            documentation: Vec::new(),
            default: None,
            map: None,
            native_type: None,
            ignore: None,
        };
        assert(r@.docs =~= Seq::empty());
        assert(r@.slots =~= FieldView::fresh(name@, base_type@, COMPOSITE_SLOTS as nat).slots);
        r
    }

    /// Makes the field optional: `Type?`. The last arity set wins.
    pub fn optional(&mut self)
        ensures
            final(self)@ == old(self)@.with_arity(Arity::Optional),
    {
        self.field_type.set_arity(Arity::Optional);
    }

    /// Makes the field a list: `Type[]`. The last arity set wins.
    pub fn array(&mut self)
        ensures
            final(self)@ == old(self)@.with_arity(Arity::List),
    {
        self.field_type.set_arity(Arity::List);
    }

    /// Makes the field's type unsupported: `Unsupported("Type")`.
    pub fn unsupported(&mut self)
        ensures
            final(self)@ == (FieldView { ty: FieldTypeView { unsupported: true, ..old(self)@.ty }, ..old(self)@ }),
    {
        self.field_type.into_unsupported();
    }

    /// Sets the database name: `@map("value")`.
    pub fn map(&mut self, value: &str)
        ensures
            final(self)@ == old(self)@.with_slot(COMPOSITE_MAP_SLOT as int, map_text(value@)),
    {
        let mut a = FieldAttribute::new("map");
        a.push_param(&Value::Text(String::from_str(value)));
        assert(a@.text() == map_text(value@)) by {
            assert(Seq::<Seq<char>>::empty().push(quoted(value@)) =~= seq![quoted(value@)]);
        }
        self.map = Some(a);
        assert(self@.slots =~= old(self)@.slots.update(COMPOSITE_MAP_SLOT as int, Some(map_text(value@))));
    }

    /// Adds a documentation text; earlier texts are kept.
    pub fn documentation(&mut self, documentation: &str)
        ensures
            final(self)@ == (FieldView { docs: old(self)@.docs.push(documentation@), ..old(self)@ }),
    {
        self.documentation.push(String::from_str(documentation));
        assert(self@.docs =~= old(self)@.docs.push(documentation@));
    }

    /// Sets the default value: `@default(...)`.
    pub fn default(&mut self, value: DefaultValue)
        ensures
            final(self)@ == old(self)@.with_slot(COMPOSITE_DEFAULT_SLOT as int, value@.text()),
    {
        self.default = Some(value.attribute());
        assert(self@.slots =~= old(self)@.slots.update(COMPOSITE_DEFAULT_SLOT as int, Some(value@.text())));
    }

    /// Sets the native type: `@prefix.Type(params)`, each parameter as it is.
    pub fn native_type(&mut self, prefix: &str, native: &str, params: Vec<String>)
        ensures
            final(self)@ == old(self)@.with_slot(
                COMPOSITE_NATIVE_TYPE_SLOT as int,
                native_type_text(prefix@, native@, texts(params@)),
            ),
    {
        let mut a = FieldAttribute::new(native);
        let n = params.len();
        let mut i: usize = 0;
        while i < n
            invariant
                n == params@.len(),
                i <= n,
                a@.prefix is None,
                a@.name == native@,
                a@.args == texts(params@).subrange(0, i as int),
            decreases n - i,
        {
            a.push_param(&Value::Constant(params[i].clone()));
            assert(a@.args =~= texts(params@).subrange(0, i + 1));
            i = i + 1;
        }
        a.prefix(prefix);
        assert(texts(params@).subrange(0, n as int) =~= texts(params@));
        self.native_type = Some(a);
        assert(self@.slots =~= old(self)@.slots.update(
            COMPOSITE_NATIVE_TYPE_SLOT as int,
            Some(native_type_text(prefix@, native@, texts(params@))),
        ));
    }

    /// Ignores the field: `@ignore`.
    pub fn ignore(&mut self)
        ensures
            final(self)@ == old(self)@.with_slot(COMPOSITE_IGNORE_SLOT as int, bare_text("ignore"@)),
    {
        self.ignore = Some(FieldAttribute::new("ignore"));
        assert(self@.slots =~= old(self)@.slots.update(COMPOSITE_IGNORE_SLOT as int, Some(bare_text("ignore"@))));
    }

    /// Comments the field out: its line starts with `// `.
    pub fn commented_out(&mut self)
        ensures
            final(self)@ == (FieldView { commented_out: true, ..old(self)@ }),
    {
        self.commented_out = true;
    }

    /// Appends the field's text to `out`.
    pub fn write(&self, out: &mut String)
        ensures
            final(out)@ == old(out)@ + self@.text(),
    {
        write_head(out, &self.documentation, self.commented_out, self.name.as_str(), &self.field_type);
        let ghost head = out@;
        let ghost acc: Seq<Option<Seq<char>>> = Seq::empty();
        assert(out@ =~= head + slots_text(acc));
        write_slot(out, &self.default, Ghost(head), Ghost(acc));
        let ghost acc = acc.push(slot_of(self.default));
        write_slot(out, &self.map, Ghost(head), Ghost(acc));
        let ghost acc = acc.push(slot_of(self.map));
        write_slot(out, &self.native_type, Ghost(head), Ghost(acc));
        let ghost acc = acc.push(slot_of(self.native_type));
        write_slot(out, &self.ignore, Ghost(head), Ghost(acc));
        let ghost acc = acc.push(slot_of(self.ignore));
        assert(acc =~= self@.slots);
        assert(out@ =~= old(out)@ + self@.text());
    }

    /// The field's text: documentation lines, then the declaration line.
    pub fn render(&self) -> (r: String)
        ensures
            r@ == self@.text(),
    {
        let mut out = String::new();
        self.write(&mut out);
        assert(out@ =~= self@.text());
        out
    }
}

/// The field lines of a block, each followed by a line break, in order.
pub open spec fn fields_text(fields: Seq<FieldView>) -> Seq<char>
    decreases fields.len(),
{
    if fields.len() == 0 {
        Seq::empty()
    } else {
        fields_text(fields.drop_last()) + fields.last().text() + "\n"@
    }
}

/// The abstract contents of a type block: its name, documentation texts and fields.
pub ghost struct CompositeTypeView {
    pub name: Seq<char>,
    pub docs: Seq<Seq<char>>,
    pub fields: Seq<FieldView>,
}

impl CompositeTypeView {
    /// The block's text: documentation, `type Name {`, one line per field, `}`.
    pub open spec fn text(self) -> Seq<char> {
        docs_text(self.docs) + "type "@ + self.name + " {\n"@ + fields_text(self.fields) + "}\n"@
    }
}

/// A type block.
pub struct CompositeType {
    name: String,
    documentation: Vec<String>,
    fields: Vec<CompositeTypeField>,
}

impl View for CompositeType {
    type V = CompositeTypeView;

    closed spec fn view(&self) -> CompositeTypeView {
        CompositeTypeView {
            name: self.name@,
            docs: texts(self.documentation@),
            fields: self.fields@.map_values(|f: CompositeTypeField| f@),
        }
    }
}

impl CompositeType {
    /// A new, empty type block.
    pub fn new(name: &str) -> (r: CompositeType)
        ensures
            r@ == (CompositeTypeView { name: name@, docs: Seq::empty(), fields: Seq::empty() }),
    {
        let r = CompositeType { name: String::from_str(name), documentation: Vec::new(), fields: Vec::new() };
        assert(r@.docs =~= Seq::empty());
        assert(r@.fields =~= Seq::empty());
        r
    }

    /// Adds a documentation text; earlier texts are kept.
    pub fn documentation(&mut self, documentation: &str)
        ensures
            final(self)@ == (CompositeTypeView { docs: old(self)@.docs.push(documentation@), ..old(self)@ }),
    {
        self.documentation.push(String::from_str(documentation));
        assert(self@.docs =~= old(self)@.docs.push(documentation@));
    }

    /// Adds a field after the ones already there.
    pub fn push_field(&mut self, field: CompositeTypeField)
        ensures
            final(self)@ == (CompositeTypeView { fields: old(self)@.fields.push(field@), ..old(self)@ }),
    {
        self.fields.push(field);
        assert(self@.fields =~= old(self)@.fields.push(field@));
    }

    /// The block's text.
    pub fn render(&self) -> (r: String)
        ensures
            r@ == self@.text(),
    {
        let mut out = String::new();
        write_docs(&mut out, &self.documentation);
        out.append("type ");
        out.append(self.name.as_str());
        out.append(" {\n");
        let ghost start = out@;
        let ghost views = self@.fields;
        let n = self.fields.len();
        let mut i: usize = 0;
        while i < n
            invariant
                n == self.fields@.len(),
                views == self@.fields,
                i <= n,
                out@ == start + fields_text(views.subrange(0, i as int)),
            decreases n - i,
        {
            self.fields[i].write(&mut out);
            out.append("\n");
            proof {
                let p = views.subrange(0, i + 1);
                assert(p.drop_last() =~= views.subrange(0, i as int));
                assert(out@ =~= start + fields_text(p));
            }
            i = i + 1;
        }
        assert(views.subrange(0, n as int) =~= views);
        out.append("}\n");
        assert(out@ =~= self@.text());
        out
    }
}

} // verus!
