//! Attributes (`@name(args)`, `@prefix.name(args)`) and their argument payloads.
use vstd::prelude::*;
use crate::text::{bool_text, decimal, join, quoted, write_bool, write_decimal, write_quoted};

verus! {

/// The text of each string of a sequence.
pub open spec fn texts(v: Seq<String>) -> Seq<Seq<char>> {
    v.map_values(|s: String| s@)
}

/// A bracketed, comma-separated list: `[a, b]`.
pub open spec fn list_text(items: Seq<Seq<char>>) -> Seq<char> {
    "["@ + join(items) + "]"@
}

/// A call form: the bare name without arguments, else `name(a, b)`.
pub open spec fn call_text(name: Seq<char>, args: Seq<Seq<char>>) -> Seq<char> {
    if args.len() == 0 {
        name
    } else {
        name + "("@ + join(args) + ")"@
    }
}

/// A field attribute: `@name(args)` or, with a namespace, `@prefix.name(args)`.
pub open spec fn attribute_text(prefix: Option<Seq<char>>, name: Seq<char>, args: Seq<Seq<char>>) -> Seq<char> {
    match prefix {
        Some(p) => "@"@ + p + "."@ + call_text(name, args),
        None => "@"@ + call_text(name, args),
    }
}

/// A named argument: `key: value`.
pub open spec fn named_text(key: Seq<char>, value: Seq<char>) -> Seq<char> {
    key + ": "@ + value
}

/// Appends the items of `items` to `out`, separated by `", "`.
pub fn write_joined(out: &mut String, items: &Vec<String>)
    ensures
        final(out)@ == old(out)@ + join(texts(items@)),
{
    let n = items.len();
    let mut i: usize = 0;
    while i < n
        invariant
            n == items@.len(),
            i <= n,
            out@ == old(out)@ + join(texts(items@).subrange(0, i as int)),
        decreases n - i,
    {
        let ghost before = out@;
        if i > 0 {
            out.append(", ");
        }
        out.append(items[i].as_str());
        proof {
            let t = texts(items@);
            let p = t.subrange(0, i + 1);
            assert(p.drop_last() =~= t.subrange(0, i as int));
            assert(p.last() == items@[i as int]@);
            if i == 0 {
                assert(out@ =~= old(out)@ + join(p));
            } else {
                assert(out@ =~= old(out)@ + join(p));
            }
        }
        i = i + 1;
    }
    assert(texts(items@).subrange(0, n as int) =~= texts(items@));
}

/// Appends `[a, b, ...]` to `out`.
pub fn write_list(out: &mut String, items: &Vec<String>)
    ensures
        final(out)@ == old(out)@ + list_text(texts(items@)),
{
    out.append("[");
    write_joined(out, items);
    out.append("]");
    assert(out@ =~= old(out)@ + list_text(texts(items@)));
}

/// Appends `name` or `name(args)` to `out`.
pub fn write_call(out: &mut String, name: &str, args: &Vec<String>)
    ensures
        final(out)@ == old(out)@ + call_text(name@, texts(args@)),
{
    out.append(name);
    if args.len() > 0 {
        out.append("(");
        write_joined(out, args);
        out.append(")");
    }
    assert(out@ =~= old(out)@ + call_text(name@, texts(args@)));
}

/// Adds one rendered argument to an argument list.
pub fn push_text(args: &mut Vec<String>, s: String)
    ensures
        texts(final(args)@) == texts(old(args)@).push(s@),
{
    args.push(s);
    assert(texts(args@) =~= texts(old(args)@).push(s@));
}

/// The value of an argument.
pub enum Value {
    /// A string, rendered quoted and escaped.
    Text(String),
    /// An identifier or other bare token, rendered as it is.
    Constant(String),
    /// A number.
    Number(u32),
    /// A boolean.
    Boolean(bool),
    /// A list of bare tokens, rendered in brackets.
    List(Vec<String>),
    /// A call without arguments, such as `now()`.
    Call(String),
}

impl Value {
    /// The value as it appears in an argument list.
    pub open spec fn spec_text(&self) -> Seq<char> {
        match self {
            Value::Text(s) => quoted(s@),
            Value::Constant(s) => s@,
            Value::Number(n) => decimal(*n as nat),
            Value::Boolean(b) => bool_text(*b),
            Value::List(v) => list_text(texts(v@)),
            Value::Call(name) => name@ + "()"@,
        }
    }

    /// Appends the value's text to `out`.
    pub fn write(&self, out: &mut String)
        ensures
            final(out)@ == old(out)@ + self.spec_text(),
    {
        match self {
            Value::Text(s) => write_quoted(out, s.as_str()),
            Value::Constant(s) => out.append(s.as_str()),
            Value::Number(n) => write_decimal(out, *n),
            Value::Boolean(b) => write_bool(out, *b),
            Value::List(v) => write_list(out, v),
            Value::Call(name) => {
                out.append(name.as_str());
                out.append("()");
                assert(out@ =~= old(out)@ + self.spec_text());
            },
        }
    }

    /// The value's text.
    pub fn render(&self) -> (r: String)
        ensures
            r@ == self.spec_text(),
    {
        let mut out = String::new();
        self.write(&mut out);
        assert(out@ =~= self.spec_text());
        out
    }
}

/// Renders a named argument `key: value`.
pub fn render_named(key: &str, value: &Value) -> (r: String)
    ensures
        r@ == named_text(key@, value.spec_text()),
{
    let mut out = String::new();
    out.append(key);
    out.append(": ");
    value.write(&mut out);
    assert(out@ =~= named_text(key@, value.spec_text()));
    out
}

/// The abstract contents of an attribute: namespace, name and rendered arguments.
pub ghost struct AttributeView {
    pub prefix: Option<Seq<char>>,
    pub name: Seq<char>,
    pub args: Seq<Seq<char>>,
}

impl AttributeView {
    /// The attribute's text.
    pub open spec fn text(self) -> Seq<char> {
        attribute_text(self.prefix, self.name, self.args)
    }
}

/// One `@name(args)` decoration of a field.
pub struct FieldAttribute {
    prefix: Option<String>,
    name: String,
    args: Vec<String>,
}

impl View for FieldAttribute {
    type V = AttributeView;

    closed spec fn view(&self) -> AttributeView {
        AttributeView {
            prefix: match self.prefix {
                Some(p) => Some(p@),
                None => None,
            },
            name: self.name@,
            args: texts(self.args@),
        }
    }
}

impl FieldAttribute {
    /// An attribute without namespace or arguments.
    pub fn new(name: &str) -> (r: FieldAttribute)
        ensures
            r@ == (AttributeView { prefix: None, name: name@, args: Seq::empty() }),
    {
        let r = FieldAttribute { prefix: None, name: String::from_str(name), args: Vec::new() };
        assert(texts(r.args@) =~= Seq::empty());
        r
    }

    /// Adds a positional argument.
    pub fn push_param(&mut self, value: &Value)
        ensures
            final(self)@ == (AttributeView { args: old(self)@.args.push(value.spec_text()), ..old(self)@ }),
    {
        let s = value.render();
        push_text(&mut self.args, s);
    }

    /// Adds a named argument `key: value`.
    pub fn push_named(&mut self, key: &str, value: &Value)
        ensures
            final(self)@ == (AttributeView {
                args: old(self)@.args.push(named_text(key@, value.spec_text())),
                ..old(self)@
            }),
    {
        let s = render_named(key, value);
        push_text(&mut self.args, s);
    }

    /// Adds an argument that is already rendered.
    pub fn push_raw(&mut self, arg: String)
        ensures
            final(self)@ == (AttributeView { args: old(self)@.args.push(arg@), ..old(self)@ }),
    {
        push_text(&mut self.args, arg);
    }

    /// Puts the attribute in a namespace: `@prefix.name`.
    pub fn prefix(&mut self, prefix: &str)
        ensures
            final(self)@ == (AttributeView { prefix: Some(prefix@), ..old(self)@ }),
    {
        self.prefix = Some(String::from_str(prefix));
    }

    /// Appends the attribute's text to `out`.
    pub fn write(&self, out: &mut String)
        ensures
            final(out)@ == old(out)@ + self@.text(),
    {
        out.append("@");
        match &self.prefix {
            Some(p) => {
                out.append(p.as_str());
                out.append(".");
            },
            None => {},
        }
        write_call(out, self.name.as_str(), &self.args);
        assert(out@ =~= old(out)@ + self@.text());
    }

    /// The attribute's text.
    pub fn render(&self) -> (r: String)
        ensures
            r@ == self@.text(),
    {
        let mut out = String::new();
        self.write(&mut out);
        assert(out@ =~= self@.text());
        out
    }
}

} // verus!
