use crate::error::{outcome, Error, ErrorView};
use crate::field::{
    defaulted_str, object, optional_str, put, read_defaulted_str, read_optional_str,
    read_required_object, required_object,
};
use crate::json::{lemma_lookup_empty, lemma_lookup_push, members_of, Json, JsonValue};
use crate::registry::{
    agree_on, declares, lemma_extra_member_agrees, line, no_lines, sends_only, table_of, Field,
    FieldSpec, Visibility,
};
use vstd::prelude::*;

verus! {

/// The column of a database that holds who created each record.
#[derive(Clone, Debug, PartialEq, Eq)]
pub struct DatabaseCreatedByProperty {
    /// The identifier of the property. It is read and never sent.
    pub id: Option<String>,
    /// The name of the column. It is read and never sent: a column is
    /// sent under its name, not with it. It is empty where a document
    /// holds none.
    pub name: String,
    /// The description of the column. It is read and never sent.
    pub description: Option<String>,
    /// The payload, which holds nothing.
    pub created_by: std::collections::HashMap<(), ()>,
}

/// The mathematical value of a [`DatabaseCreatedByProperty`].
pub struct DatabaseCreatedByPropertyView {
    pub id: Option<Seq<char>>,
    pub name: Seq<char>,
    pub description: Option<Seq<char>>,
}

impl DeepView for DatabaseCreatedByProperty {
    type V = DatabaseCreatedByPropertyView;

    open spec fn deep_view(&self) -> DatabaseCreatedByPropertyView {
        DatabaseCreatedByPropertyView {
            id: self.id.deep_view(),
            name: self.name@,
            description: self.description.deep_view(),
        }
    }
}

impl View for DatabaseCreatedByProperty {
    type V = DatabaseCreatedByPropertyView;

    open spec fn view(&self) -> DatabaseCreatedByPropertyView {
        self.deep_view()
    }
}

impl DatabaseCreatedByPropertyView {
    /// The property as it is sent: without what only the service fills in.
    pub open spec fn sent(self) -> DatabaseCreatedByPropertyView {
        DatabaseCreatedByPropertyView { id: None, name: Seq::empty(), description: None }
    }
}

/// The field table of the property.
pub open spec fn created_by_fields() -> Seq<FieldSpec> {
    seq![
        FieldSpec { key: "id"@, visibility: Visibility::ReadOnly, required: false },
        FieldSpec { key: "name"@, visibility: Visibility::ReadOnly, required: false },
        FieldSpec { key: "description"@, visibility: Visibility::ReadOnly, required: false },
        FieldSpec { key: "created_by"@, visibility: Visibility::ReadWrite, required: true },
    ]
}

/// What a document decodes to as the property.
pub open spec fn decode_created_by(j: JsonValue) -> Result<
    DatabaseCreatedByPropertyView,
    ErrorView,
> {
    match optional_str(j, "id"@) {
        Err(e) => Err(e),
        Ok(id) => match defaulted_str(j, "name"@) {
            Err(e) => Err(e),
            Ok(name) => match optional_str(j, "description"@) {
                Err(e) => Err(e),
                Ok(description) => match required_object(j, "created_by"@) {
                    Err(e) => Err(e),
                    Ok(_) => Ok(DatabaseCreatedByPropertyView { id, name, description }),
                },
            },
        },
    }
}

/// The document that the property is written as: its payload, which holds
/// nothing.
pub open spec fn encode_created_by(p: DatabaseCreatedByPropertyView) -> JsonValue {
    JsonValue::Object(Seq::empty().push(("created_by"@, JsonValue::Object(Seq::empty()))))
}

/// The keys of the property differ from each other.
pub proof fn lemma_created_by_keys()
    ensures
        "id"@ != "name"@,
        "id"@ != "description"@,
        "id"@ != "created_by"@,
        "name"@ != "description"@,
        "name"@ != "created_by"@,
        "description"@ != "created_by"@,
{
    reveal_strlit("id");
    reveal_strlit("name");
    reveal_strlit("description");
    reveal_strlit("created_by");
    assert("id"@.len() == 2);
    assert("name"@.len() == 4);
    assert("description"@.len() == 11);
    assert("created_by"@.len() == 10);
}

/// The property is written with keys that its field table lets be sent:
/// with its payload, and without its identifier, its name and its
/// description.
pub proof fn lemma_created_by_sends_declared(p: DatabaseCreatedByPropertyView)
    ensures
        sends_only(created_by_fields(), encode_created_by(p)),
        encode_created_by(p).field("created_by"@) == Some(JsonValue::Object(Seq::empty())),
        encode_created_by(p).field("id"@) is None,
        encode_created_by(p).field("name"@) is None,
        encode_created_by(p).field("description"@) is None,
{
    broadcast use {lemma_lookup_push, lemma_lookup_empty};

    lemma_created_by_keys();
    assert(created_by_fields()[3].key == "created_by"@);
}

/// What is written of the property does not depend on what only the
/// service fills in.
pub proof fn lemma_created_by_elides(p: DatabaseCreatedByPropertyView)
    ensures
        encode_created_by(p) == encode_created_by(p.sent()),
{
}

/// The property that is written and read again is the property that was
/// sent.
pub proof fn lemma_created_by_round_trip(p: DatabaseCreatedByPropertyView)
    ensures
        decode_created_by(encode_created_by(p)) == Ok::<DatabaseCreatedByPropertyView, ErrorView>(
            p.sent(),
        ),
{
    broadcast use {lemma_lookup_push, lemma_lookup_empty};

    lemma_created_by_keys();
}

/// A document that is read as the property and written again reads as the
/// property that was read, without what only the service fills in.
pub proof fn lemma_created_by_reserialize(j: JsonValue)
    requires
        decode_created_by(j) is Ok,
    ensures
        decode_created_by(encode_created_by(decode_created_by(j)->Ok_0)) == Ok::<
            DatabaseCreatedByPropertyView,
            ErrorView,
        >(decode_created_by(j)->Ok_0.sent()),
{
    lemma_created_by_round_trip(decode_created_by(j)->Ok_0);
}

/// Decoding the property reads the keys of its field table and no others:
/// two documents that agree on them decode alike.
pub proof fn lemma_created_by_reads_declared(a: JsonValue, b: JsonValue)
    requires
        agree_on(created_by_fields(), a, b),
    ensures
        decode_created_by(a) == decode_created_by(b),
{
    let table = created_by_fields();
    assert(table[0].key == "id"@ && table[1].key == "name"@ && table[2].key == "description"@
        && table[3].key == "created_by"@);
}

impl DatabaseCreatedByProperty {
    /// Sets the name of the column.
    pub fn name(self, name: &str) -> (r: DatabaseCreatedByProperty)
        ensures
            r@ == (DatabaseCreatedByPropertyView { name: name@, ..self@ }),
            r.created_by == self.created_by,
    {
        DatabaseCreatedByProperty {
            id: self.id,
            name: name.to_owned(),
            description: self.description,
            created_by: self.created_by,
        }
    }

    /// Sets the description of the column.
    pub fn description(self, description: &str) -> (r: DatabaseCreatedByProperty)
        ensures
            r@ == (DatabaseCreatedByPropertyView { description: Some(description@), ..self@ }),
            r.created_by == self.created_by,
    {
        DatabaseCreatedByProperty {
            id: self.id,
            name: self.name,
            description: Some(description.to_owned()),
            created_by: self.created_by,
        }
    }

    /// Reads the property from a document.
    pub fn from_json(j: &Json) -> (r: Result<DatabaseCreatedByProperty, Error>)
        ensures
            outcome(r) == decode_created_by(j@),
            r matches Ok(p) ==> p.created_by@ == Map::<(), ()>::empty(),
    {
        let id = read_optional_str(j, "id")?;
        let name = read_defaulted_str(j, "name")?;
        let description = read_optional_str(j, "description")?;
        let _ = read_required_object(j, "created_by")?;
        Ok(
            DatabaseCreatedByProperty {
                id,
                name,
                description,
                created_by: std::collections::HashMap::new(),
            },
        )
    }

    /// Writes the property as a document, without what only the service
    /// fills in.
    pub fn to_json(&self) -> (r: Json)
        ensures
            r@ == encode_created_by(self@),
    {
        let mut members: Vec<(String, Json)> = Vec::new();
        assert(members_of(members@) =~= Seq::empty());
        let payload: Vec<(String, Json)> = Vec::new();
        assert(members_of(payload@) =~= Seq::empty());
        put(&mut members, "created_by", object(payload));
        object(members)
    }
}

impl Default for DatabaseCreatedByProperty {
    /// The property with nothing filled in.
    fn default() -> (r: DatabaseCreatedByProperty)
        ensures
            r@ == (DatabaseCreatedByPropertyView {
                id: None,
                name: Seq::empty(),
                description: None,
            }),
            r.created_by@ == Map::<(), ()>::empty(),
    {
        DatabaseCreatedByProperty {
            id: None,
            name: String::new(),
            description: None,
            created_by: std::collections::HashMap::new(),
        }
    }
}

impl DatabaseCreatedByProperty {
    /// The field table of the property.
    pub fn fields() -> (table: Vec<Field>)
        ensures
            table_of(table@) == created_by_fields(),
    {
        let mut table = no_lines();
        line(&mut table, "id", Visibility::ReadOnly, false);
        line(&mut table, "name", Visibility::ReadOnly, false);
        line(&mut table, "description", Visibility::ReadOnly, false);
        line(&mut table, "created_by", Visibility::ReadWrite, true);
        assert(table_of(table@) =~= created_by_fields());
        table
    }
}

/// Reading the property passes over what it does not know: a member under a key
/// that the field table has no line for, put anywhere among the members
/// of a document, changes nothing of what is read.
pub proof fn lemma_created_by_ignores_extra(
    members: Seq<(Seq<char>, JsonValue)>,
    at: int,
    extra: (Seq<char>, JsonValue),
)
    requires
        0 <= at <= members.len(),
        !declares(created_by_fields(), extra.0),
    ensures
        decode_created_by(JsonValue::Object(members.insert(at, extra))) == decode_created_by(
            JsonValue::Object(members),
        ),
{
    lemma_extra_member_agrees(created_by_fields(), members, at, extra);
    lemma_created_by_reads_declared(
        JsonValue::Object(members.insert(at, extra)),
        JsonValue::Object(members),
    );
}

/// A document that lacks the payload is refused for the missing payload,
/// where what is read before it can be read.
pub proof fn lemma_created_by_missing_field(j: JsonValue)
    requires
        optional_str(j, "id"@) is Ok,
        optional_str(j, "name"@) is Ok,
        optional_str(j, "description"@) is Ok,
        j.field("created_by"@) is None,
    ensures
        decode_created_by(j) == Err::<DatabaseCreatedByPropertyView, ErrorView>(
            ErrorView::MissingField { field: "created_by"@ },
        ),
{
}

/// A field that the table marks as required is asked for: a document that
/// lacks one is refused as the property.
pub proof fn lemma_created_by_asks_required(j: JsonValue, i: int)
    requires
        0 <= i < created_by_fields().len(),
        created_by_fields()[i].required,
        j.field(created_by_fields()[i].key) is None,
    ensures
        decode_created_by(j) is Err,
{
    let table = created_by_fields();
    assert(table[0].key == "id"@
        && table[1].key == "name"@
        && table[2].key == "description"@
        && table[3].key == "created_by"@);
}

} // verus!
