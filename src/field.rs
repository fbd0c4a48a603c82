//! Field types and the model of a rendered field declaration.
use vstd::prelude::*;
use crate::attribute::{texts, FieldAttribute};
use crate::text::{doc_lines, quoted, write_doc, write_quoted};

verus! {

/// The arity of a field's type.
#[derive(Clone, Copy, PartialEq, Eq, Structural, Debug)]
pub enum Arity {
    Required,
    Optional,
    List,
}

/// The suffix an arity adds to a type: nothing, `?` or `[]`.
pub open spec fn arity_suffix(a: Arity) -> Seq<char> {
    match a {
        Arity::Required => Seq::empty(),
        Arity::Optional => "?"@,
        Arity::List => "[]"@,
    }
}

/// The abstract contents of a field type.
pub ghost struct FieldTypeView {
    pub name: Seq<char>,
    pub arity: Arity,
    pub unsupported: bool,
}

impl FieldTypeView {
    /// The type's text: the name, or `Unsupported("name")`, then the arity suffix.
    pub open spec fn text(self) -> Seq<char> {
        (if self.unsupported {
            "Unsupported("@ + quoted(self.name) + ")"@
        } else {
            self.name
        }) + arity_suffix(self.arity)
    }
}

/// The type of a field: a base type name, an arity and whether it is unsupported.
pub struct FieldType {
    name: String,
    arity: Arity,
    unsupported: bool,
}

impl View for FieldType {
    type V = FieldTypeView;

    closed spec fn view(&self) -> FieldTypeView {
        FieldTypeView { name: self.name@, arity: self.arity, unsupported: self.unsupported }
    }
}

impl FieldType {
    /// A required, supported type.
    pub fn required(name: &str) -> (r: FieldType)
        ensures
            r@ == (FieldTypeView { name: name@, arity: Arity::Required, unsupported: false }),
    {
        FieldType { name: String::from_str(name), arity: Arity::Required, unsupported: false }
    }

    /// Sets the arity; the last call wins.
    pub fn set_arity(&mut self, arity: Arity)
        ensures
            final(self)@ == (FieldTypeView { arity: arity, ..old(self)@ }),
    {
        self.arity = arity;
    }

    /// Marks the type as unsupported.
    pub fn into_unsupported(&mut self)
        ensures
            final(self)@ == (FieldTypeView { unsupported: true, ..old(self)@ }),
    {
        self.unsupported = true;
    }

    /// Appends the type's text to `out`.
    pub fn write(&self, out: &mut String)
        ensures
            final(out)@ == old(out)@ + self@.text(),
    {
        if self.unsupported {
            out.append("Unsupported(");
            write_quoted(out, self.name.as_str());
            out.append(")");
        } else {
            out.append(self.name.as_str());
        }
        match self.arity {
            Arity::Required => {},
            Arity::Optional => out.append("?"),
            Arity::List => out.append("[]"),
        }
        assert(out@ =~= old(out)@ + self@.text());
    }

    /// The type's text.
    pub fn render(&self) -> (r: String)
        ensures
            r@ == self@.text(),
    {
        let mut out = String::new();
        self.write(&mut out);
        assert(out@ =~= self@.text());
        out
    }
}

/// The documentation lines of a sequence of documentation texts, in order.
pub open spec fn docs_text(docs: Seq<Seq<char>>) -> Seq<char>
    decreases docs.len(),
{
    if docs.len() == 0 {
        Seq::empty()
    } else {
        docs_text(docs.drop_last()) + doc_lines(docs.last())
    }
}

/// What one attribute slot adds to a field's line: a space and the attribute, or nothing.
pub open spec fn slot_text(slot: Option<Seq<char>>) -> Seq<char> {
    match slot {
        Some(t) => " "@ + t,
        None => Seq::empty(),
    }
}

/// The populated slots, in slot order, each after a single space.
pub open spec fn slots_text(slots: Seq<Option<Seq<char>>>) -> Seq<char>
    decreases slots.len(),
{
    if slots.len() == 0 {
        Seq::empty()
    } else {
        slots_text(slots.drop_last()) + slot_text(slots.last())
    }
}

/// A row of empty attribute slots.
pub open spec fn empty_slots(n: nat) -> Seq<Option<Seq<char>>> {
    Seq::new(n, |i: int| None)
}

/// The text of an attribute slot holding `a`.
pub open spec fn slot_of(a: Option<FieldAttribute>) -> Option<Seq<char>> {
    match a {
        Some(x) => Some(x@.text()),
        None => None,
    }
}

/// The abstract contents of a field declaration: its name and type, its
/// documentation texts, whether it is commented out, and the text of each attribute
/// slot in the order in which the slots render.
pub ghost struct FieldView {
    pub name: Seq<char>,
    pub ty: FieldTypeView,
    pub docs: Seq<Seq<char>>,
    pub commented_out: bool,
    pub slots: Seq<Option<Seq<char>>>,
}

impl FieldView {
    /// A new required field with no documentation and no attributes.
    pub open spec fn fresh(name: Seq<char>, base_type: Seq<char>, n: nat) -> FieldView {
        FieldView {
            name: name,
            ty: FieldTypeView { name: base_type, arity: Arity::Required, unsupported: false },
            docs: Seq::empty(),
            commented_out: false,
            slots: empty_slots(n),
        }
    }

    /// The field with slot `i` holding the attribute text `t`.
    pub open spec fn with_slot(self, i: int, t: Seq<char>) -> FieldView {
        FieldView { slots: self.slots.update(i, Some(t)), ..self }
    }

    /// The field with the given arity.
    pub open spec fn with_arity(self, a: Arity) -> FieldView {
        FieldView { ty: FieldTypeView { arity: a, ..self.ty }, ..self }
    }

    /// The field's declaration line, without documentation: the comment marker if
    /// commented out, `name type`, then the populated attributes.
    pub open spec fn line(self) -> Seq<char> {
        (if self.commented_out {
            "// "@
        } else {
            Seq::empty()
        }) + self.name + " "@ + self.ty.text() + slots_text(self.slots)
    }

    /// The field's text: documentation lines, then its declaration line.
    pub open spec fn text(self) -> Seq<char> {
        docs_text(self.docs) + self.line()
    }
}

/// One more slot adds its own text at the end.
pub proof fn lemma_slots_push(slots: Seq<Option<Seq<char>>>, s: Option<Seq<char>>)
    ensures
        slots_text(slots.push(s)) == slots_text(slots) + slot_text(s),
{
    assert(slots.push(s).drop_last() =~= slots);
}

/// One more documentation text adds its lines at the end.
pub proof fn lemma_docs_push(docs: Seq<Seq<char>>, d: Seq<char>)
    ensures
        docs_text(docs.push(d)) == docs_text(docs) + doc_lines(d),
{
    assert(docs.push(d).drop_last() =~= docs);
}

/// Appends the documentation lines of each text to `out`.
pub fn write_docs(out: &mut String, docs: &Vec<String>)
    ensures
        final(out)@ == old(out)@ + docs_text(texts(docs@)),
{
    let n = docs.len();
    let mut i: usize = 0;
    while i < n
        invariant
            n == docs@.len(),
            i <= n,
            out@ == old(out)@ + docs_text(texts(docs@).subrange(0, i as int)),
        decreases n - i,
    {
        write_doc(out, docs[i].as_str());
        proof {
            let t = texts(docs@);
            assert(t.subrange(0, i + 1) =~= t.subrange(0, i as int).push(t[i as int]));
            lemma_docs_push(t.subrange(0, i as int), t[i as int]);
            assert(out@ =~= old(out)@ + docs_text(t.subrange(0, i + 1)));
        }
        i = i + 1;
    }
    assert(texts(docs@).subrange(0, n as int) =~= texts(docs@));
}

/// Appends the documentation and the start of a declaration line: the comment
/// marker if commented out, then `name type`.
pub fn write_head(out: &mut String, docs: &Vec<String>, commented_out: bool, name: &str, ty: &FieldType)
    ensures
        final(out)@ == old(out)@ + docs_text(texts(docs@)) + (if commented_out {
            "// "@
        } else {
            Seq::<char>::empty()
        }) + name@ + " "@ + ty@.text(),
{
    write_docs(out, docs);
    if commented_out {
        out.append("// ");
    }
    out.append(name);
    out.append(" ");
    ty.write(out);
    assert(out@ =~= old(out)@ + docs_text(texts(docs@)) + (if commented_out {
        "// "@
    } else {
        Seq::<char>::empty()
    }) + name@ + " "@ + ty@.text());
}

/// Appends what an attribute slot adds to a declaration line whose slots so far
/// were `acc`.
pub(crate) fn write_slot(
    out: &mut String,
    slot: &Option<FieldAttribute>,
    Ghost(base): Ghost<Seq<char>>,
    Ghost(acc): Ghost<Seq<Option<Seq<char>>>>,
)
    requires
        old(out)@ == base + slots_text(acc),
    ensures
        final(out)@ == base + slots_text(acc.push(slot_of(*slot))),
{
    proof {
        lemma_slots_push(acc, slot_of(*slot));
    }
    match slot {
        Some(a) => {
            out.append(" ");
            a.write(out);
        },
        None => {},
    }
    assert(out@ =~= base + slots_text(acc.push(slot_of(*slot))));
}

} // verus!
