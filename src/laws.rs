//! Properties of rendering that hold across calls and for all inputs.
use vstd::prelude::*;
use crate::field::{arity_suffix, docs_text, slot_text, slots_text, Arity, FieldView};
use crate::legacy::{
    adapted_model_field, default_slot, map_slot, native_slot, relation_is_named, unique_lookup,
    LegacyField, RelationField, ScalarField, UniqueEntry,
};
use crate::model_field::{
    bare_text, DEFAULT_SLOT, ID_SLOT, IGNORE_SLOT, MAP_SLOT, NATIVE_TYPE_SLOT, RELATION_SLOT, UNIQUE_SLOT,
    UPDATED_AT_SLOT,
};
use crate::payload::{index_view, IdFieldDefinition};
use crate::text::{doc_lines, quoted};

verus! {

/// `needle` occurs in `hay` at some position.
pub open spec fn contains(hay: Seq<char>, needle: Seq<char>) -> bool {
    exists|k: int| 0 <= k && k + needle.len() <= hay.len() && #[trigger] hay.subrange(k, k + needle.len()) == needle
}

/// The middle part of a concatenation occurs in it.
proof fn lemma_contains_middle(a: Seq<char>, b: Seq<char>, c: Seq<char>)
    ensures
        contains(a + b + c, b),
{
    let h = a + b + c;
    assert(h.subrange(a.len() as int, (a.len() + b.len()) as int) =~= b);
}

/// The text of two rows of slots is the text of each, in order.
proof fn lemma_slots_concat(a: Seq<Option<Seq<char>>>, b: Seq<Option<Seq<char>>>)
    ensures
        slots_text(a + b) == slots_text(a) + slots_text(b),
    decreases b.len(),
{
    if b.len() == 0 {
        assert(a + b =~= a);
        assert(slots_text(a) + slots_text(b) =~= slots_text(a));
    } else {
        lemma_slots_concat(a, b.drop_last());
        assert((a + b).drop_last() =~= a + b.drop_last());
        assert((a + b).last() == b.last());
        assert(slots_text(a + b) =~= slots_text(a) + slots_text(b));
    }
}

/// Every populated attribute slot of a field appears in its text, after a space.
pub proof fn populated_slot_is_rendered(v: FieldView, i: int, t: Seq<char>)
    requires
        0 <= i < v.slots.len(),
        v.slots[i] == Some(t),
    ensures
        contains(v.text(), " "@ + t),
{
    let s = v.slots;
    let pre = s.subrange(0, i);
    let mid = seq![s[i]];
    let post = s.subrange(i + 1, s.len() as int);
    assert(s =~= pre + mid + post);
    lemma_slots_concat(pre + mid, post);
    lemma_slots_concat(pre, mid);
    assert(mid.drop_last() =~= Seq::<Option<Seq<char>>>::empty());
    assert(mid.last() == Some(t));
    assert(slots_text(Seq::<Option<Seq<char>>>::empty()) == Seq::<char>::empty());
    assert(slots_text(mid) == slots_text(mid.drop_last()) + slot_text(mid.last()));
    assert(slots_text(mid) =~= " "@ + t);
    let a = docs_text(v.docs) + (if v.commented_out {
        "// "@
    } else {
        Seq::<char>::empty()
    }) + v.name + " "@ + v.ty.text() + slots_text(pre);
    assert(v.text() =~= a + (" "@ + t) + slots_text(post));
    lemma_contains_middle(a, " "@ + t, slots_text(post));
}

/// Attributes render in the fixed order of their slots, whatever the order in which
/// they were set: setting two different slots in either order gives the same field,
/// and so the same text.
pub proof fn setter_order_is_irrelevant(v: FieldView, i: int, j: int, a: Seq<char>, b: Seq<char>)
    requires
        0 <= i < v.slots.len(),
        0 <= j < v.slots.len(),
        i != j,
    ensures
        v.with_slot(i, a).with_slot(j, b) == v.with_slot(j, b).with_slot(i, a),
        v.with_slot(i, a).with_slot(j, b).text() == v.with_slot(j, b).with_slot(i, a).text(),
{
    assert(v.with_slot(i, a).with_slot(j, b).slots =~= v.with_slot(j, b).with_slot(i, a).slots);
}

/// Setting an arity twice leaves only the last one: the type carries exactly that
/// arity's suffix.
pub proof fn last_arity_wins(v: FieldView, first: Arity, last: Arity)
    ensures
        v.with_arity(first).with_arity(last) == v.with_arity(last),
        v.with_arity(first).with_arity(last).ty.text() == (if v.ty.unsupported {
            "Unsupported("@ + quoted(v.ty.name) + ")"@
        } else {
            v.ty.name
        }) + arity_suffix(last),
{
}

/// Commenting a field out keeps its whole declaration line, attributes included,
/// and puts the comment marker in front of it.
pub proof fn comment_marker_only_prefixes(v: FieldView)
    requires
        !v.commented_out,
    ensures
        (FieldView { commented_out: true, ..v }).line() == "// "@ + v.line(),
        (FieldView { commented_out: true, ..v }).text() == docs_text(v.docs) + "// "@ + v.line(),
{
    let c = FieldView { commented_out: true, ..v };
    assert(c.line() =~= "// "@ + v.line());
    assert(v.line() =~= v.name + " "@ + v.ty.text() + slots_text(v.slots));
    assert(c.text() =~= docs_text(v.docs) + "// "@ + v.line());
}

/// A relation field whose relation has no name, no fields and no references gets
/// no relation attribute.
pub proof fn anonymous_relation_is_dropped(
    datasource: Seq<char>,
    rf: RelationField,
    uniques: Seq<UniqueEntry>,
    id: Option<IdFieldDefinition>,
)
    requires
        rf.relation_info.name@.len() == 0,
        rf.relation_info.fields@.len() == 0,
        rf.relation_info.references@.len() == 0,
    ensures
        adapted_model_field(datasource, LegacyField::Relation(rf), uniques, id).slots[RELATION_SLOT as int] is None,
{
}

/// A scalar field gets `@unique` with exactly the options the table holds for its
/// name, and none where the table has no entry for it.
pub proof fn unique_follows_table(
    datasource: Seq<char>,
    sf: ScalarField,
    uniques: Seq<UniqueEntry>,
    id: Option<IdFieldDefinition>,
)
    ensures
        ({
            let v = adapted_model_field(datasource, LegacyField::Scalar(sf), uniques, id);
            match unique_lookup(uniques, sf.name@) {
                Some(o) => v.slots[UNIQUE_SLOT as int] == Some(index_view("unique"@, o).text())
                    && contains(v.text(), " "@ + index_view("unique"@, o).text()),
                None => v.slots[UNIQUE_SLOT as int] is None,
            }
        }),
{
    let v = adapted_model_field(datasource, LegacyField::Scalar(sf), uniques, id);
    match unique_lookup(uniques, sf.name@) {
        Some(o) => populated_slot_is_rendered(v, UNIQUE_SLOT as int, index_view("unique"@, o).text()),
        None => {},
    }
}

/// Each populated slot, rendered.
pub open spec fn shows(v: FieldView, i: int) -> bool {
    match v.slots[i] {
        Some(t) => contains(v.text(), " "@ + t),
        None => true,
    }
}

/// Every populated slot of a field appears in its text.
proof fn lemma_all_slots_shown(v: FieldView)
    ensures
        forall|i: int| 0 <= i < v.slots.len() ==> #[trigger] shows(v, i),
{
    assert forall|i: int| 0 <= i < v.slots.len() implies #[trigger] shows(v, i) by {
        match v.slots[i] {
            Some(t) => populated_slot_is_rendered(v, i, t),
            None => {},
        }
    }
}

/// The lines of a field's only documentation text appear in its text.
proof fn lemma_doc_shown(v: FieldView, d: Seq<char>)
    requires
        v.docs == seq![d],
    ensures
        contains(v.text(), doc_lines(d)),
{
    assert(v.docs.drop_last() =~= Seq::<Seq<char>>::empty());
    assert(docs_text(Seq::<Seq<char>>::empty()) == Seq::<char>::empty());
    assert(docs_text(v.docs) == docs_text(v.docs.drop_last()) + doc_lines(v.docs.last()));
    assert(docs_text(v.docs) =~= doc_lines(d));
    lemma_contains_middle(Seq::empty(), doc_lines(d), v.line());
    assert(Seq::<char>::empty() + doc_lines(d) + v.line() =~= v.text());
}

/// No populated property of a legacy field is lost: its documentation, default,
/// database name, native type, flags and relation each appear in the text of the
/// field it becomes.
pub proof fn adapter_keeps_every_property(
    datasource: Seq<char>,
    field: LegacyField,
    uniques: Seq<UniqueEntry>,
    id: Option<IdFieldDefinition>,
)
    ensures
        ({
            let v = adapted_model_field(datasource, field, uniques, id);
            &&& forall|i: int| 0 <= i < v.slots.len() ==> #[trigger] shows(v, i)
            &&& match field {
                LegacyField::Scalar(sf) => {
                    &&& (sf.documentation matches Some(d) ==> contains(v.text(), doc_lines(d@)))
                    &&& (sf.default_value is Some ==> v.slots[DEFAULT_SLOT as int] == default_slot(sf.default_value)
                        && default_slot(sf.default_value) is Some)
                    &&& (sf.database_name is Some ==> v.slots[MAP_SLOT as int] == map_slot(sf.database_name)
                        && map_slot(sf.database_name) is Some)
                    &&& v.slots[NATIVE_TYPE_SLOT as int] == native_slot(datasource, sf.field_type)
                    &&& (sf.is_updated_at ==> v.slots[UPDATED_AT_SLOT as int] == Some(bare_text("updatedAt"@)))
                    &&& (sf.is_ignored ==> v.slots[IGNORE_SLOT as int] == Some(bare_text("ignore"@)))
                    &&& (id matches Some(d) ==> v.slots[ID_SLOT as int] == Some(index_view("id"@, d.options).text()))
                    &&& v.commented_out == sf.is_commented_out
                    &&& (sf.field_type is Unsupported ==> v.ty.unsupported)
                    &&& v.ty.arity == sf.arity
                },
                LegacyField::Relation(rf) => {
                    &&& (rf.documentation matches Some(d) ==> contains(v.text(), doc_lines(d@)))
                    &&& (relation_is_named(rf.relation_info) ==> v.slots[RELATION_SLOT as int] is Some)
                    &&& (rf.is_ignored ==> v.slots[IGNORE_SLOT as int] == Some(bare_text("ignore"@)))
                    &&& v.ty.arity == rf.arity
                },
                LegacyField::Composite(cf) => {
                    &&& (cf.documentation matches Some(d) ==> contains(v.text(), doc_lines(d@)))
                    &&& (cf.default_value is Some ==> v.slots[DEFAULT_SLOT as int] == default_slot(cf.default_value)
                        && default_slot(cf.default_value) is Some)
                    &&& (cf.database_name is Some ==> v.slots[MAP_SLOT as int] == map_slot(cf.database_name)
                        && map_slot(cf.database_name) is Some)
                    &&& (cf.is_ignored ==> v.slots[IGNORE_SLOT as int] == Some(bare_text("ignore"@)))
                    &&& v.commented_out == cf.is_commented_out
                    &&& v.ty.arity == cf.arity
                },
            }
        }),
{
    let v = adapted_model_field(datasource, field, uniques, id);
    lemma_all_slots_shown(v);
    match field {
        LegacyField::Scalar(sf) => {
            if let Some(d) = sf.documentation {
                lemma_doc_shown(v, d@);
            }
        },
        LegacyField::Relation(rf) => {
            if let Some(d) = rf.documentation {
                lemma_doc_shown(v, d@);
            }
        },
        LegacyField::Composite(cf) => {
            if let Some(d) = cf.documentation {
                lemma_doc_shown(v, d@);
            }
        },
    }
}

} // verus!
