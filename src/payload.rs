//! Payloads of the structured attributes: default values, index options
//! for `@unique` and `@id`, and relation descriptors.
use vstd::prelude::*;
use crate::attribute::{
    named_text, list_text, push_text, texts, write_list, AttributeView, FieldAttribute, Value,
};
use crate::text::{decimal, bool_text, quoted};

verus! {

/// The value of a `@default(...)` attribute.
pub struct DefaultValue {
    attribute: FieldAttribute,
}

/// The attribute `@default(value)`.
pub open spec fn default_view(value: Seq<char>) -> AttributeView {
    AttributeView { prefix: None, name: "default"@, args: seq![value] }
}

impl View for DefaultValue {
    type V = AttributeView;

    closed spec fn view(&self) -> AttributeView {
        self.attribute@
    }
}

impl DefaultValue {
    /// A default of any value.
    pub fn new(value: &Value) -> (r: DefaultValue)
        ensures
            r@ == default_view(value.spec_text()),
    {
        let mut attribute = FieldAttribute::new("default");
        attribute.push_param(value);
        assert(attribute@ == default_view(value.spec_text())) by {
            assert(seq![].push(value.spec_text()) =~= seq![value.spec_text()]);
        }
        DefaultValue { attribute }
    }

    /// A string default, rendered quoted.
    pub fn text(value: &str) -> (r: DefaultValue)
        ensures
            r@ == default_view(quoted(value@)),
    {
        DefaultValue::new(&Value::Text(String::from_str(value)))
    }

    /// A bare constant default (a number, a boolean, an enum value).
    pub fn constant(value: &str) -> (r: DefaultValue)
        ensures
            r@ == default_view(value@),
    {
        DefaultValue::new(&Value::Constant(String::from_str(value)))
    }

    /// A generated default, such as `now()` or `autoincrement()`.
    pub fn function(name: &str) -> (r: DefaultValue)
        ensures
            r@ == default_view(name@ + "()"@),
    {
        DefaultValue::new(&Value::Call(String::from_str(name)))
    }

    /// The attribute this default renders as.
    pub fn attribute(self) -> (r: FieldAttribute)
        ensures
            r@ == self@,
    {
        self.attribute
    }
}

/// The sort order of an indexed field.
#[derive(Clone, Copy, PartialEq, Eq, Structural, Debug)]
pub enum SortOrder {
    Asc,
    Desc,
}

impl SortOrder {
    /// The sort order's keyword.
    pub open spec fn spec_text(self) -> Seq<char> {
        match self {
            SortOrder::Asc => "Asc"@,
            SortOrder::Desc => "Desc"@,
        }
    }

    /// The sort order as a bare argument value.
    pub fn value(self) -> (r: Value)
        ensures
            r.spec_text() == self.spec_text(),
    {
        match self {
            SortOrder::Asc => Value::Constant(String::from_str("Asc")),
            SortOrder::Desc => Value::Constant(String::from_str("Desc")),
        }
    }
}

/// Options of a single-field `@unique` or `@id`.
pub struct IndexFieldOptions {
    pub map: Option<String>,
    pub sort_order: Option<SortOrder>,
    pub length: Option<u32>,
    pub clustered: Option<bool>,
}

/// The arguments that index options render as, in the order map, sort, length, clustered;
/// absent options give no argument.
pub open spec fn index_args(o: IndexFieldOptions) -> Seq<Seq<char>> {
    (match o.map {
        Some(m) => seq![named_text("map"@, quoted(m@))],
        None => Seq::empty(),
    }) + (match o.sort_order {
        Some(s) => seq![named_text("sort"@, s.spec_text())],
        None => Seq::empty(),
    }) + (match o.length {
        Some(n) => seq![named_text("length"@, decimal(n as nat))],
        None => Seq::empty(),
    }) + (match o.clustered {
        Some(c) => seq![named_text("clustered"@, bool_text(c))],
        None => Seq::empty(),
    })
}

/// The attribute `@name(...)` carrying the given index options.
pub open spec fn index_view(name: Seq<char>, o: IndexFieldOptions) -> AttributeView {
    AttributeView { prefix: None, name: name, args: index_args(o) }
}

impl IndexFieldOptions {
    /// Options with nothing set.
    pub fn new() -> (r: IndexFieldOptions)
        ensures
            r.map is None,
            r.sort_order is None,
            r.length is None,
            r.clustered is None,
    {
        IndexFieldOptions { map: None, sort_order: None, length: None, clustered: None }
    }

    /// A copy of the options.
    pub fn duplicate(&self) -> (r: IndexFieldOptions)
        ensures
            r == *self,
    {
        IndexFieldOptions {
            map: copy_option_string(&self.map),
            sort_order: self.sort_order,
            length: self.length,
            clustered: self.clustered,
        }
    }

    /// The attribute `@name(...)` with these options as its arguments.
    pub fn to_attribute(&self, name: &str) -> (r: FieldAttribute)
        ensures
            r@ == index_view(name@, *self),
    {
        let mut a = FieldAttribute::new(name);
        match &self.map {
            Some(m) => a.push_named("map", &Value::Text(m.clone())),
            None => {},
        }
        match self.sort_order {
            Some(s) => a.push_named("sort", &s.value()),
            None => {},
        }
        match self.length {
            Some(n) => a.push_named("length", &Value::Number(n)),
            None => {},
        }
        match self.clustered {
            Some(c) => a.push_named("clustered", &Value::Boolean(c)),
            None => {},
        }
        assert(a@.args =~= index_args(*self));
        a
    }
}

/// The definition of a single-field primary key, rendered as `@id(...)`.
pub struct IdFieldDefinition {
    pub options: IndexFieldOptions,
}

impl IdFieldDefinition {
    /// An id with the given options; with none set it renders as a bare `@id`.
    pub fn new(options: IndexFieldOptions) -> (r: IdFieldDefinition)
        ensures
            r.options == options,
    {
        IdFieldDefinition { options }
    }

    /// The attribute `@id(...)` with the options as its arguments.
    pub fn to_attribute(&self) -> (r: FieldAttribute)
        ensures
            r@ == index_view("id"@, self.options),
    {
        self.options.to_attribute("id")
    }
}

/// What happens to a referencing row when the referenced row changes.
#[derive(Clone, Copy, PartialEq, Eq, Structural, Debug)]
pub enum ReferentialAction {
    Cascade,
    Restrict,
    NoAction,
    SetNull,
    SetDefault,
}

impl ReferentialAction {
    /// The action's keyword.
    pub open spec fn spec_text(self) -> Seq<char> {
        match self {
            ReferentialAction::Cascade => "Cascade"@,
            ReferentialAction::Restrict => "Restrict"@,
            ReferentialAction::NoAction => "NoAction"@,
            ReferentialAction::SetNull => "SetNull"@,
            ReferentialAction::SetDefault => "SetDefault"@,
        }
    }

    /// The action as a bare argument value.
    pub fn value(self) -> (r: Value)
        ensures
            r.spec_text() == self.spec_text(),
    {
        let s = match self {
            ReferentialAction::Cascade => "Cascade",
            ReferentialAction::Restrict => "Restrict",
            ReferentialAction::NoAction => "NoAction",
            ReferentialAction::SetNull => "SetNull",
            ReferentialAction::SetDefault => "SetDefault",
        };
        Value::Constant(String::from_str(s))
    }
}

/// A relation descriptor, rendered as `@relation(...)`.
pub struct Relation {
    pub name: Option<String>,
    pub fields: Vec<String>,
    pub references: Vec<String>,
    pub on_delete: Option<ReferentialAction>,
    pub on_update: Option<ReferentialAction>,
    pub map: Option<String>,
}

/// The arguments of a relation in their fixed order: the quoted name, `fields`,
/// `references`, `onDelete`, `onUpdate`, `map`; an absent name or action, or an
/// empty list, gives no argument.
pub open spec fn relation_args(r: Relation) -> Seq<Seq<char>> {
    (match r.name {
        Some(n) => seq![quoted(n@)],
        None => Seq::empty(),
    }) + (if r.fields@.len() > 0 {
        seq![named_text("fields"@, list_text(texts(r.fields@)))]
    } else {
        Seq::empty()
    }) + (if r.references@.len() > 0 {
        seq![named_text("references"@, list_text(texts(r.references@)))]
    } else {
        Seq::empty()
    }) + (match r.on_delete {
        Some(a) => seq![named_text("onDelete"@, a.spec_text())],
        None => Seq::empty(),
    }) + (match r.on_update {
        Some(a) => seq![named_text("onUpdate"@, a.spec_text())],
        None => Seq::empty(),
    }) + (match r.map {
        Some(m) => seq![named_text("map"@, quoted(m@))],
        None => Seq::empty(),
    })
}

/// The attribute `@relation(...)` a relation descriptor renders as.
pub open spec fn relation_view(r: Relation) -> AttributeView {
    AttributeView { prefix: None, name: "relation"@, args: relation_args(r) }
}

/// Renders `key: [a, b]`.
fn render_named_list(key: &str, items: &Vec<String>) -> (r: String)
    ensures
        r@ == named_text(key@, list_text(texts(items@))),
{
    let mut out = String::new();
    out.append(key);
    out.append(": ");
    write_list(&mut out, items);
    assert(out@ =~= named_text(key@, list_text(texts(items@))));
    out
}

impl Relation {
    /// A relation with nothing set; it renders as a bare `@relation`.
    pub fn new() -> (r: Relation)
        ensures
            r.name is None,
            r.fields@.len() == 0,
            r.references@.len() == 0,
            r.on_delete is None,
            r.on_update is None,
            r.map is None,
    {
        Relation {
            name: None,
            fields: Vec::new(),
            references: Vec::new(),
            on_delete: None,
            on_update: None,
            map: None,
        }
    }

    /// The attribute `@relation(...)`; without any part set, a bare `@relation`.
    pub fn to_attribute(&self) -> (r: FieldAttribute)
        ensures
            r@ == relation_view(*self),
    {
        let mut a = FieldAttribute::new("relation");
        match &self.name {
            Some(n) => a.push_param(&Value::Text(n.clone())),
            None => {},
        }
        if self.fields.len() > 0 {
            let s = render_named_list("fields", &self.fields);
            a.push_raw(s);
        }
        if self.references.len() > 0 {
            let s = render_named_list("references", &self.references);
            a.push_raw(s);
        }
        match self.on_delete {
            Some(x) => a.push_named("onDelete", &x.value()),
            None => {},
        }
        match self.on_update {
            Some(x) => a.push_named("onUpdate", &x.value()),
            None => {},
        }
        match &self.map {
            Some(m) => a.push_named("map", &Value::Text(m.clone())),
            None => {},
        }
        assert(a@.args =~= relation_args(*self));
        a
    }
}

/// A copy of an optional string.
pub(crate) fn copy_option_string(o: &Option<String>) -> (r: Option<String>)
    ensures
        r == *o,
{
    match o {
        Some(s) => Some(s.clone()),
        None => None,
    }
}

} // verus!
