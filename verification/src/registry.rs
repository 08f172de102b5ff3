use crate::json::{lemma_lookup_insert, JsonValue};
use vstd::prelude::*;

verus! {

/// Who may write a field.
#[derive(Clone, Copy, Debug, PartialEq, Eq)]
pub enum Visibility {
    /// Filled in by the service; never sent to it.
    ReadOnly,
    /// Sent to the service; never found in what it answers.
    WriteOnly,
    /// Read and sent alike.
    ReadWrite,
}

/// One line of a payload's field table: the key of a field, who may write
/// it, and whether a document that is read must hold it.
#[derive(Clone, Copy, Debug, PartialEq, Eq)]
pub struct Field {
    pub key: &'static str,
    pub visibility: Visibility,
    pub required: bool,
}

/// The mathematical value of a [`Field`].
pub struct FieldSpec {
    pub key: Seq<char>,
    pub visibility: Visibility,
    pub required: bool,
}

impl View for Field {
    type V = FieldSpec;

    open spec fn view(&self) -> FieldSpec {
        FieldSpec { key: self.key@, visibility: self.visibility, required: self.required }
    }
}

/// The mathematical value of a field table.
pub open spec fn table_of(lines: Seq<Field>) -> Seq<FieldSpec> {
    Seq::new(lines.len(), |i: int| lines[i]@)
}

/// Whether `table` has a line for `key`.
pub open spec fn declares(table: Seq<FieldSpec>, key: Seq<char>) -> bool {
    exists|i: int| 0 <= i < table.len() && #[trigger] table[i].key == key
}

/// Whether `table` has a line for `key` that lets the field be sent.
pub open spec fn sends(table: Seq<FieldSpec>, key: Seq<char>) -> bool {
    exists|i: int|
        0 <= i < table.len() && #[trigger] table[i].key == key && table[i].visibility
            != Visibility::ReadOnly
}

/// Whether two documents hold the same under every key of `table`.
pub open spec fn agree_on(table: Seq<FieldSpec>, a: JsonValue, b: JsonValue) -> bool {
    forall|i: int|
        0 <= i < table.len() ==> a.field(#[trigger] table[i].key) == b.field(table[i].key)
}

/// Whether a document holds nothing under a key that `table` does not let
/// be sent.
pub open spec fn sends_only(table: Seq<FieldSpec>, j: JsonValue) -> bool {
    forall|key: Seq<char>| #[trigger] j.field(key) is Some ==> sends(table, key)
}

/// A table of one line more.
pub fn line(table: &mut Vec<Field>, key: &'static str, visibility: Visibility, required: bool)
    ensures
        table_of(final(table)@) == table_of(old(table)@).push(
            FieldSpec { key: key@, visibility, required },
        ),
{
    table.push(Field { key, visibility, required });
    assert(table_of(table@) =~= table_of(old(table)@).push(
        FieldSpec { key: key@, visibility, required },
    ));
}

/// A table without lines.
pub fn no_lines() -> (table: Vec<Field>)
    ensures
        table_of(table@) == Seq::<FieldSpec>::empty(),
{
    let table: Vec<Field> = Vec::new();
    assert(table_of(table@) =~= Seq::<FieldSpec>::empty());
    table
}

/// A member under a key that a table has no line for, put anywhere among
/// the members of a document, changes nothing under the keys of the table.
pub proof fn lemma_extra_member_agrees(
    table: Seq<FieldSpec>,
    members: Seq<(Seq<char>, JsonValue)>,
    at: int,
    extra: (Seq<char>, JsonValue),
)
    requires
        0 <= at <= members.len(),
        !declares(table, extra.0),
    ensures
        agree_on(table, JsonValue::Object(members.insert(at, extra)), JsonValue::Object(members)),
{
    assert forall|i: int| 0 <= i < table.len() implies JsonValue::Object(
        members.insert(at, extra),
    ).field(#[trigger] table[i].key) == JsonValue::Object(members).field(table[i].key) by {
        lemma_lookup_insert(members, at, extra, table[i].key);
    }
}

} // verus!
