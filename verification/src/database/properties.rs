use crate::database::properties::created_by::{
    decode_created_by, DatabaseCreatedByProperty, DatabaseCreatedByPropertyView,
};
use crate::database::properties::multi_select::{
    decode_multi_select, encode_multi_select_options, lemma_multi_select_options_round_trip,
    DatabaseMultiSelectProperty, DatabaseMultiSelectPropertyView,
};
use crate::error::{outcome, Error, ErrorView};
use crate::field::{object, put, put_str, read_tag, tag};
use crate::json::{lemma_lookup_empty, lemma_lookup_push, members_of, Json, JsonValue};
use crate::registry::{
    agree_on, declares, lemma_extra_member_agrees, line, no_lines, sends_only, table_of, Field,
    FieldSpec, Visibility,
};
use crate::text::same_text;
use vstd::prelude::*;

pub mod created_by;
pub mod multi_select;

verus! {

/// The family of the columns of a database. Exactly one variant is active;
/// the discriminator that a column is written with is derived from it, and
/// is no field that could be set apart from it.
#[derive(Clone, Debug, PartialEq, Eq)]
pub enum DatabaseProperty {
    CreatedBy(DatabaseCreatedByProperty),
    MultiSelect(DatabaseMultiSelectProperty),
}

/// The mathematical value of a [`DatabaseProperty`].
pub enum DatabasePropertyView {
    CreatedBy(DatabaseCreatedByPropertyView),
    MultiSelect(DatabaseMultiSelectPropertyView),
}

impl DeepView for DatabaseProperty {
    type V = DatabasePropertyView;

    open spec fn deep_view(&self) -> DatabasePropertyView {
        match self {
            DatabaseProperty::CreatedBy(p) => DatabasePropertyView::CreatedBy(p@),
            DatabaseProperty::MultiSelect(p) => DatabasePropertyView::MultiSelect(p@),
        }
    }
}

impl View for DatabaseProperty {
    type V = DatabasePropertyView;

    open spec fn view(&self) -> DatabasePropertyView {
        self.deep_view()
    }
}

impl DatabasePropertyView {
    /// The discriminator of the active variant.
    pub open spec fn discriminator(self) -> Seq<char> {
        match self {
            DatabasePropertyView::CreatedBy(_) => "created_by"@,
            DatabasePropertyView::MultiSelect(_) => "multi_select"@,
        }
    }

    /// The column as it is sent.
    pub open spec fn sent(self) -> DatabasePropertyView {
        match self {
            DatabasePropertyView::CreatedBy(p) => DatabasePropertyView::CreatedBy(p.sent()),
            DatabasePropertyView::MultiSelect(p) => DatabasePropertyView::MultiSelect(p.sent()),
        }
    }
}

/// Whether `kind` is the discriminator of a variant of the family.
pub open spec fn names_database_property(kind: Seq<char>) -> bool {
    kind == "created_by"@ || kind == "multi_select"@
}

/// The field table of a column. Of the payloads, a document holds the one
/// that its discriminator names.
pub open spec fn database_property_fields() -> Seq<FieldSpec> {
    seq![
        FieldSpec { key: "type"@, visibility: Visibility::ReadWrite, required: true },
        FieldSpec { key: "id"@, visibility: Visibility::ReadOnly, required: false },
        FieldSpec { key: "name"@, visibility: Visibility::ReadOnly, required: false },
        FieldSpec { key: "description"@, visibility: Visibility::ReadOnly, required: false },
        FieldSpec { key: "created_by"@, visibility: Visibility::ReadWrite, required: false },
        FieldSpec { key: "multi_select"@, visibility: Visibility::ReadWrite, required: false },
    ]
}

/// What a document decodes to as a column. The discriminator under `type`
/// picks the variant, and the payload is read under the same word.
pub open spec fn decode_database_property(j: JsonValue) -> Result<
    DatabasePropertyView,
    ErrorView,
> {
    match tag(j, "type"@) {
        None => Err(
            ErrorView::UnknownVariant { family: "database_property"@, discriminator: None },
        ),
        Some(kind) => if kind == "created_by"@ {
            match decode_created_by(j) {
                Err(e) => Err(e),
                Ok(p) => Ok(DatabasePropertyView::CreatedBy(p)),
            }
        } else if kind == "multi_select"@ {
            match decode_multi_select(j) {
                Err(e) => Err(e),
                Ok(p) => Ok(DatabasePropertyView::MultiSelect(p)),
            }
        } else {
            Err(
                ErrorView::UnknownVariant {
                    family: "database_property"@,
                    discriminator: Some(kind),
                },
            )
        },
    }
}

/// The document that a column is written as: the discriminator of the
/// active variant, and the payload under the same word.
pub open spec fn encode_database_property(p: DatabasePropertyView) -> JsonValue {
    match p {
        DatabasePropertyView::CreatedBy(_) => JsonValue::Object(
            Seq::empty().push(("type"@, JsonValue::Str("created_by"@))).push(
                ("created_by"@, JsonValue::Object(Seq::empty())),
            ),
        ),
        DatabasePropertyView::MultiSelect(p) => JsonValue::Object(
            Seq::empty().push(("type"@, JsonValue::Str("multi_select"@))).push(
                ("multi_select"@, encode_multi_select_options(p.multi_select)),
            ),
        ),
    }
}

/// The keys of a column differ from each other.
pub proof fn lemma_database_property_keys()
    ensures
        "type"@ != "id"@,
        "type"@ != "name"@,
        "type"@ != "description"@,
        "type"@ != "created_by"@,
        "type"@ != "multi_select"@,
        "id"@ != "name"@,
        "id"@ != "description"@,
        "id"@ != "created_by"@,
        "id"@ != "multi_select"@,
        "name"@ != "description"@,
        "name"@ != "created_by"@,
        "name"@ != "multi_select"@,
        "description"@ != "created_by"@,
        "description"@ != "multi_select"@,
        "created_by"@ != "multi_select"@,
{
    reveal_strlit("type");
    reveal_strlit("id");
    reveal_strlit("name");
    reveal_strlit("description");
    reveal_strlit("created_by");
    reveal_strlit("multi_select");
    assert("type"@.len() == 4 && "type"@[0] == 't');
    assert("id"@.len() == 2);
    assert("name"@.len() == 4 && "name"@[0] == 'n');
    assert("description"@.len() == 11);
    assert("created_by"@.len() == 10);
    assert("multi_select"@.len() == 12);
}

/// A column is written under the discriminator of its active variant, with
/// its payload under the same word: no column is written under the
/// discriminator of another variant.
pub proof fn lemma_database_property_tag(p: DatabasePropertyView)
    ensures
        tag(encode_database_property(p), "type"@) == Some(p.discriminator()),
        encode_database_property(p).field(p.discriminator()) is Some,
        names_database_property(p.discriminator()),
{
    broadcast use {lemma_lookup_push, lemma_lookup_empty};

    lemma_database_property_keys();
}

/// A column that is read holds the variant that the document's
/// discriminator names.
pub proof fn lemma_database_property_decoded_tag(j: JsonValue)
    requires
        decode_database_property(j) is Ok,
    ensures
        tag(j, "type"@) == Some(decode_database_property(j)->Ok_0.discriminator()),
{
}

/// A document whose discriminator is absent, or names no variant of the
/// family, is refused as such, whatever else it holds.
pub proof fn lemma_database_property_unknown(j: JsonValue)
    requires
        tag(j, "type"@) is None || !names_database_property(tag(j, "type"@)->Some_0),
    ensures
        decode_database_property(j) == Err::<DatabasePropertyView, ErrorView>(
            ErrorView::UnknownVariant {
                family: "database_property"@,
                discriminator: tag(j, "type"@),
            },
        ),
{
}

/// A column that is written and read again is the column that was sent.
pub proof fn lemma_database_property_round_trip(p: DatabasePropertyView)
    ensures
        decode_database_property(encode_database_property(p)) == Ok::<
            DatabasePropertyView,
            ErrorView,
        >(p.sent()),
{
    broadcast use {lemma_lookup_push, lemma_lookup_empty};

    lemma_database_property_keys();
    match p {
        DatabasePropertyView::CreatedBy(_) => {},
        DatabasePropertyView::MultiSelect(m) => {
            lemma_multi_select_options_round_trip(m.multi_select);
        },
    }
}

/// A document that is read as a column and written again reads as the
/// column that was read, without what only the service fills in.
pub proof fn lemma_database_property_reserialize(j: JsonValue)
    requires
        decode_database_property(j) is Ok,
    ensures
        decode_database_property(
            encode_database_property(decode_database_property(j)->Ok_0),
        ) == Ok::<DatabasePropertyView, ErrorView>(decode_database_property(j)->Ok_0.sent()),
{
    lemma_database_property_round_trip(decode_database_property(j)->Ok_0);
}

/// What is written of a column does not depend on what only the service
/// fills in.
pub proof fn lemma_database_property_elides(p: DatabasePropertyView)
    ensures
        encode_database_property(p) == encode_database_property(p.sent()),
{
}

/// Decoding a column reads the keys of its field table and no others: two
/// documents that agree on them decode alike.
pub proof fn lemma_database_property_reads_declared(a: JsonValue, b: JsonValue)
    requires
        agree_on(database_property_fields(), a, b),
    ensures
        decode_database_property(a) == decode_database_property(b),
{
    let table = database_property_fields();
    assert(table[0].key == "type"@ && table[1].key == "id"@ && table[2].key == "name"@
        && table[3].key == "description"@ && table[4].key == "created_by"@ && table[5].key
        == "multi_select"@);
}

/// A column is written with keys that its field table lets be sent, and so
/// without its identifier, its name and its description.
pub proof fn lemma_database_property_sends_declared(p: DatabasePropertyView)
    ensures
        sends_only(database_property_fields(), encode_database_property(p)),
        encode_database_property(p).field("id"@) is None,
        encode_database_property(p).field("name"@) is None,
        encode_database_property(p).field("description"@) is None,
{
    broadcast use {lemma_lookup_push, lemma_lookup_empty};

    lemma_database_property_keys();
    let table = database_property_fields();
    assert(table[0].key == "type"@ && table[4].key == "created_by"@ && table[5].key
        == "multi_select"@);
}

impl DatabaseProperty {
    /// The discriminator of the active variant.
    pub fn discriminator(&self) -> (r: &'static str)
        ensures
            r@ == self@.discriminator(),
    {
        match self {
            DatabaseProperty::CreatedBy(_) => "created_by",
            DatabaseProperty::MultiSelect(_) => "multi_select",
        }
    }

    /// Reads a column from a document.
    pub fn from_json(j: &Json) -> (r: Result<DatabaseProperty, Error>)
        ensures
            outcome(r) == decode_database_property(j@),
    {
        match read_tag(j, "type") {
            None => Err(Error::UnknownVariant {
                family: "database_property".to_owned(),
                discriminator: None,
            }),
            Some(kind) => {
                if same_text(kind.as_str(), "created_by") {
                    Ok(DatabaseProperty::CreatedBy(DatabaseCreatedByProperty::from_json(j)?))
                } else if same_text(kind.as_str(), "multi_select") {
                    Ok(DatabaseProperty::MultiSelect(DatabaseMultiSelectProperty::from_json(j)?))
                } else {
                    Err(Error::UnknownVariant {
                        family: "database_property".to_owned(),
                        discriminator: Some(kind),
                    })
                }
            },
        }
    }

    /// Writes the column as a document, without what only the service
    /// fills in.
    pub fn to_json(&self) -> (r: Json)
        ensures
            r@ == encode_database_property(self@),
    {
        let mut members: Vec<(String, Json)> = Vec::new();
        assert(members_of(members@) =~= Seq::empty());
        match self {
            DatabaseProperty::CreatedBy(_) => {
                let payload: Vec<(String, Json)> = Vec::new();
                assert(members_of(payload@) =~= Seq::empty());
                put_str(&mut members, "type", "created_by");
                put(&mut members, "created_by", object(payload));
            },
            DatabaseProperty::MultiSelect(p) => {
                put_str(&mut members, "type", "multi_select");
                put(&mut members, "multi_select", p.multi_select.to_json());
            },
        }
        object(members)
    }
}

impl DatabaseProperty {
    /// The field table of a column.
    pub fn fields() -> (table: Vec<Field>)
        ensures
            table_of(table@) == database_property_fields(),
    {
        let mut table = no_lines();
        line(&mut table, "type", Visibility::ReadWrite, true);
        line(&mut table, "id", Visibility::ReadOnly, false);
        line(&mut table, "name", Visibility::ReadOnly, false);
        line(&mut table, "description", Visibility::ReadOnly, false);
        line(&mut table, "created_by", Visibility::ReadWrite, false);
        line(&mut table, "multi_select", Visibility::ReadWrite, false);
        assert(table_of(table@) =~= database_property_fields());
        table
    }
}

/// Reading a column passes over what it does not know: a member under a key
/// that the field table has no line for, put anywhere among the members
/// of a document, changes nothing of what is read.
pub proof fn lemma_database_property_ignores_extra(
    members: Seq<(Seq<char>, JsonValue)>,
    at: int,
    extra: (Seq<char>, JsonValue),
)
    requires
        0 <= at <= members.len(),
        !declares(database_property_fields(), extra.0),
    ensures
        decode_database_property(JsonValue::Object(members.insert(at, extra))) == decode_database_property(
            JsonValue::Object(members),
        ),
{
    lemma_extra_member_agrees(database_property_fields(), members, at, extra);
    lemma_database_property_reads_declared(
        JsonValue::Object(members.insert(at, extra)),
        JsonValue::Object(members),
    );
}

/// A field that the table marks as required is asked for: a document that
/// lacks one is refused as a column.
pub proof fn lemma_database_property_asks_required(j: JsonValue, i: int)
    requires
        0 <= i < database_property_fields().len(),
        database_property_fields()[i].required,
        j.field(database_property_fields()[i].key) is None,
    ensures
        decode_database_property(j) is Err,
{
    let table = database_property_fields();
    assert(table[0].key == "type"@
        && table[1].key == "id"@
        && table[2].key == "name"@
        && table[3].key == "description"@
        && table[4].key == "created_by"@
        && table[5].key == "multi_select"@);
}

} // verus!
