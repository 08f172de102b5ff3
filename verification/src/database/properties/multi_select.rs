use crate::error::{outcome, Error, ErrorView};
use crate::field::{
    array, defaulted_str, object, optional_str, put, read_defaulted_str, read_optional_str,
    read_required_array, read_required_object, required_array, required_object,
};
use crate::json::{lemma_lookup_empty, lemma_lookup_push, members_of, Json, JsonValue};
use crate::others::select::{
    decode_selects, encode_selects, lemma_selects_round_trip, Select, SelectView,
};
use crate::registry::{
    agree_on, declares, lemma_extra_member_agrees, line, no_lines, sends_only, table_of, Field,
    FieldSpec, Visibility,
};
use vstd::prelude::*;

verus! {

/// The column of a database that holds, for each record, some of a list of
/// options.
#[derive(Clone, Debug, PartialEq, Eq)]
pub struct DatabaseMultiSelectProperty {
    /// The identifier of the property. It is read and never sent.
    pub id: Option<String>,
    /// The name of the column. It is read and never sent: a column is
    /// sent under its name, not with it. It is empty where a document
    /// holds none.
    pub name: String,
    /// The description of the column. It is read and never sent.
    pub description: Option<String>,
    /// The payload: the options that a record may hold.
    pub multi_select: DatabaseMultiSelectOptionProperty,
}

/// The payload of a multi-select column.
#[derive(Clone, Debug, PartialEq, Eq)]
pub struct DatabaseMultiSelectOptionProperty {
    /// The options, in the order in which they were put in.
    pub options: Vec<Select>,
}

/// The mathematical value of a [`DatabaseMultiSelectOptionProperty`].
pub struct DatabaseMultiSelectOptionPropertyView {
    pub options: Seq<SelectView>,
}

/// The mathematical value of a [`DatabaseMultiSelectProperty`].
pub struct DatabaseMultiSelectPropertyView {
    pub id: Option<Seq<char>>,
    pub name: Seq<char>,
    pub description: Option<Seq<char>>,
    pub multi_select: DatabaseMultiSelectOptionPropertyView,
}

impl DeepView for DatabaseMultiSelectOptionProperty {
    type V = DatabaseMultiSelectOptionPropertyView;

    open spec fn deep_view(&self) -> DatabaseMultiSelectOptionPropertyView {
        DatabaseMultiSelectOptionPropertyView { options: self.options.deep_view() }
    }
}

impl View for DatabaseMultiSelectOptionProperty {
    type V = DatabaseMultiSelectOptionPropertyView;

    open spec fn view(&self) -> DatabaseMultiSelectOptionPropertyView {
        self.deep_view()
    }
}

impl DeepView for DatabaseMultiSelectProperty {
    type V = DatabaseMultiSelectPropertyView;

    open spec fn deep_view(&self) -> DatabaseMultiSelectPropertyView {
        DatabaseMultiSelectPropertyView {
            id: self.id.deep_view(),
            name: self.name@,
            description: self.description.deep_view(),
            multi_select: self.multi_select@,
        }
    }
}

impl View for DatabaseMultiSelectProperty {
    type V = DatabaseMultiSelectPropertyView;

    open spec fn view(&self) -> DatabaseMultiSelectPropertyView {
        self.deep_view()
    }
}

impl DatabaseMultiSelectPropertyView {
    /// The property as it is sent: its options, without what only the
    /// service fills in.
    pub open spec fn sent(self) -> DatabaseMultiSelectPropertyView {
        DatabaseMultiSelectPropertyView {
            id: None,
            name: Seq::empty(),
            description: None,
            multi_select: self.multi_select,
        }
    }
}

/// The field table of the property.
pub open spec fn multi_select_fields() -> Seq<FieldSpec> {
    seq![
        FieldSpec { key: "id"@, visibility: Visibility::ReadOnly, required: false },
        FieldSpec { key: "name"@, visibility: Visibility::ReadOnly, required: false },
        FieldSpec { key: "description"@, visibility: Visibility::ReadOnly, required: false },
        FieldSpec { key: "multi_select"@, visibility: Visibility::ReadWrite, required: true },
    ]
}

/// The field table of the property's payload.
pub open spec fn multi_select_option_fields() -> Seq<FieldSpec> {
    seq![FieldSpec { key: "options"@, visibility: Visibility::ReadWrite, required: true }]
}

/// What a document decodes to as the payload of the property.
pub open spec fn decode_multi_select_options(j: JsonValue) -> Result<
    DatabaseMultiSelectOptionPropertyView,
    ErrorView,
> {
    match required_array(j, "options"@) {
        Err(e) => Err(e),
        Ok(items) => match decode_selects(items) {
            Err(e) => Err(e),
            Ok(options) => Ok(DatabaseMultiSelectOptionPropertyView { options }),
        },
    }
}

/// The document that the payload of the property is written as.
pub open spec fn encode_multi_select_options(
    p: DatabaseMultiSelectOptionPropertyView,
) -> JsonValue {
    JsonValue::Object(
        Seq::empty().push(("options"@, JsonValue::Array(encode_selects(p.options)))),
    )
}

/// What a document decodes to as the property.
pub open spec fn decode_multi_select(j: JsonValue) -> Result<
    DatabaseMultiSelectPropertyView,
    ErrorView,
> {
    match optional_str(j, "id"@) {
        Err(e) => Err(e),
        Ok(id) => match defaulted_str(j, "name"@) {
            Err(e) => Err(e),
            Ok(name) => match optional_str(j, "description"@) {
                Err(e) => Err(e),
                Ok(description) => match required_object(j, "multi_select"@) {
                    Err(e) => Err(e),
                    Ok(payload) => match decode_multi_select_options(payload) {
                        Err(e) => Err(e),
                        Ok(multi_select) => Ok(
                            DatabaseMultiSelectPropertyView { id, name, description, multi_select },
                        ),
                    },
                },
            },
        },
    }
}

/// The document that the property is written as: its payload.
pub open spec fn encode_multi_select(p: DatabaseMultiSelectPropertyView) -> JsonValue {
    JsonValue::Object(
        Seq::empty().push(("multi_select"@, encode_multi_select_options(p.multi_select))),
    )
}

/// The keys of the property differ from each other.
pub proof fn lemma_multi_select_keys()
    ensures
        "id"@ != "name"@,
        "id"@ != "description"@,
        "id"@ != "multi_select"@,
        "name"@ != "description"@,
        "name"@ != "multi_select"@,
        "description"@ != "multi_select"@,
{
    reveal_strlit("id");
    reveal_strlit("name");
    reveal_strlit("description");
    reveal_strlit("multi_select");
    assert("id"@.len() == 2);
    assert("name"@.len() == 4);
    assert("description"@.len() == 11);
    assert("multi_select"@.len() == 12);
}

/// The payload of the property, written and read again, is the same
/// payload: as many options, in the same order, each with its identifier,
/// its name and its colour.
pub proof fn lemma_multi_select_options_round_trip(p: DatabaseMultiSelectOptionPropertyView)
    ensures
        decode_multi_select_options(encode_multi_select_options(p)) == Ok::<
            DatabaseMultiSelectOptionPropertyView,
            ErrorView,
        >(p),
{
    broadcast use {lemma_lookup_push, lemma_lookup_empty};

    lemma_selects_round_trip(p.options);
}

/// The property is written with keys that its field table lets be sent:
/// with its payload, and without its identifier, its name and its
/// description. The payload that is written reads back as the payload of
/// the property.
pub proof fn lemma_multi_select_sends_declared(p: DatabaseMultiSelectPropertyView)
    ensures
        sends_only(multi_select_fields(), encode_multi_select(p)),
        encode_multi_select(p).field("id"@) is None,
        encode_multi_select(p).field("name"@) is None,
        encode_multi_select(p).field("description"@) is None,
        required_object(encode_multi_select(p), "multi_select"@) == Ok::<JsonValue, ErrorView>(
            encode_multi_select_options(p.multi_select),
        ),
        decode_multi_select_options(encode_multi_select_options(p.multi_select)) == Ok::<
            DatabaseMultiSelectOptionPropertyView,
            ErrorView,
        >(p.multi_select),
{
    broadcast use {lemma_lookup_push, lemma_lookup_empty};

    lemma_multi_select_keys();
    lemma_multi_select_options_round_trip(p.multi_select);
    assert(multi_select_fields()[3].key == "multi_select"@);
}

/// What is written of the property does not depend on what only the
/// service fills in.
pub proof fn lemma_multi_select_elides(p: DatabaseMultiSelectPropertyView)
    ensures
        encode_multi_select(p) == encode_multi_select(p.sent()),
{
}

/// The property that is written and read again is the property that was
/// sent: as many options, in the same order, each with its identifier,
/// its name and its colour.
pub proof fn lemma_multi_select_round_trip(p: DatabaseMultiSelectPropertyView)
    ensures
        decode_multi_select(encode_multi_select(p)) == Ok::<
            DatabaseMultiSelectPropertyView,
            ErrorView,
        >(p.sent()),
{
    broadcast use {lemma_lookup_push, lemma_lookup_empty};

    lemma_multi_select_keys();
    lemma_multi_select_options_round_trip(p.multi_select);
}

/// A document that is read as the property and written again reads as the
/// property that was read, without what only the service fills in.
pub proof fn lemma_multi_select_reserialize(j: JsonValue)
    requires
        decode_multi_select(j) is Ok,
    ensures
        decode_multi_select(encode_multi_select(decode_multi_select(j)->Ok_0)) == Ok::<
            DatabaseMultiSelectPropertyView,
            ErrorView,
        >(decode_multi_select(j)->Ok_0.sent()),
{
    lemma_multi_select_round_trip(decode_multi_select(j)->Ok_0);
}

/// Decoding the property reads the keys of its field table and no others:
/// two documents that agree on them decode alike.
pub proof fn lemma_multi_select_reads_declared(a: JsonValue, b: JsonValue)
    requires
        agree_on(multi_select_fields(), a, b),
    ensures
        decode_multi_select(a) == decode_multi_select(b),
{
    let table = multi_select_fields();
    assert(table[0].key == "id"@ && table[1].key == "name"@ && table[2].key == "description"@
        && table[3].key == "multi_select"@);
}

impl DatabaseMultiSelectOptionProperty {
    /// Reads the payload from a document.
    pub fn from_json(j: &Json) -> (r: Result<DatabaseMultiSelectOptionProperty, Error>)
        ensures
            outcome(r) == decode_multi_select_options(j@),
    {
        let items = read_required_array(j, "options")?;
        let options = Select::list_from_json(items)?;
        Ok(DatabaseMultiSelectOptionProperty { options })
    }

    /// Writes the payload as a document.
    pub fn to_json(&self) -> (r: Json)
        ensures
            r@ == encode_multi_select_options(self@),
    {
        let mut members: Vec<(String, Json)> = Vec::new();
        assert(members_of(members@) =~= Seq::empty());
        put(&mut members, "options", array(Select::list_to_json(&self.options)));
        object(members)
    }
}

impl DatabaseMultiSelectProperty {
    /// Sets the options that a record may hold.
    pub fn options(self, options: Vec<Select>) -> (r: DatabaseMultiSelectProperty)
        ensures
            r@ == (DatabaseMultiSelectPropertyView {
                multi_select: DatabaseMultiSelectOptionPropertyView {
                    options: options.deep_view(),
                },
                ..self@
            }),
    {
        DatabaseMultiSelectProperty {
            id: self.id,
            name: self.name,
            description: self.description,
            multi_select: DatabaseMultiSelectOptionProperty { options },
        }
    }

    /// Sets the name of the column.
    pub fn name(self, name: &str) -> (r: DatabaseMultiSelectProperty)
        ensures
            r@ == (DatabaseMultiSelectPropertyView { name: name@, ..self@ }),
    {
        DatabaseMultiSelectProperty {
            id: self.id,
            name: name.to_owned(),
            description: self.description,
            multi_select: self.multi_select,
        }
    }

    /// Reads the property from a document.
    pub fn from_json(j: &Json) -> (r: Result<DatabaseMultiSelectProperty, Error>)
        ensures
            outcome(r) == decode_multi_select(j@),
    {
        let id = read_optional_str(j, "id")?;
        let name = read_defaulted_str(j, "name")?;
        let description = read_optional_str(j, "description")?;
        let payload = read_required_object(j, "multi_select")?;
        let multi_select = DatabaseMultiSelectOptionProperty::from_json(payload)?;
        Ok(DatabaseMultiSelectProperty { id, name, description, multi_select })
    }

    /// Writes the property as a document, without what only the service
    /// fills in.
    pub fn to_json(&self) -> (r: Json)
        ensures
            r@ == encode_multi_select(self@),
    {
        let mut members: Vec<(String, Json)> = Vec::new();
        assert(members_of(members@) =~= Seq::empty());
        put(&mut members, "multi_select", self.multi_select.to_json());
        object(members)
    }
}

impl Default for DatabaseMultiSelectOptionProperty {
    /// A payload without options.
    fn default() -> (r: DatabaseMultiSelectOptionProperty)
        ensures
            r@ == (DatabaseMultiSelectOptionPropertyView { options: Seq::empty() }),
    {
        let options: Vec<Select> = Vec::new();
        assert(options.deep_view() =~= Seq::empty());
        DatabaseMultiSelectOptionProperty { options }
    }
}

impl Default for DatabaseMultiSelectProperty {
    /// The property with nothing filled in, and without options.
    fn default() -> (r: DatabaseMultiSelectProperty)
        ensures
            r@ == (DatabaseMultiSelectPropertyView {
                id: None,
                name: Seq::empty(),
                description: None,
                multi_select: DatabaseMultiSelectOptionPropertyView { options: Seq::empty() },
            }),
    {
        DatabaseMultiSelectProperty {
            id: None,
            name: String::new(),
            description: None,
            multi_select: DatabaseMultiSelectOptionProperty::default(),
        }
    }
}

impl DatabaseMultiSelectProperty {
    /// The field table of the property.
    pub fn fields() -> (table: Vec<Field>)
        ensures
            table_of(table@) == multi_select_fields(),
    {
        let mut table = no_lines();
        line(&mut table, "id", Visibility::ReadOnly, false);
        line(&mut table, "name", Visibility::ReadOnly, false);
        line(&mut table, "description", Visibility::ReadOnly, false);
        line(&mut table, "multi_select", Visibility::ReadWrite, true);
        assert(table_of(table@) =~= multi_select_fields());
        table
    }
}

impl DatabaseMultiSelectOptionProperty {
    /// The field table of the property's payload.
    pub fn fields() -> (table: Vec<Field>)
        ensures
            table_of(table@) == multi_select_option_fields(),
    {
        let mut table = no_lines();
        line(&mut table, "options", Visibility::ReadWrite, true);
        assert(table_of(table@) =~= multi_select_option_fields());
        table
    }
}

/// Reading the property passes over what it does not know: a member under a key
/// that the field table has no line for, put anywhere among the members
/// of a document, changes nothing of what is read.
pub proof fn lemma_multi_select_ignores_extra(
    members: Seq<(Seq<char>, JsonValue)>,
    at: int,
    extra: (Seq<char>, JsonValue),
)
    requires
        0 <= at <= members.len(),
        !declares(multi_select_fields(), extra.0),
    ensures
        decode_multi_select(JsonValue::Object(members.insert(at, extra))) == decode_multi_select(
            JsonValue::Object(members),
        ),
{
    lemma_extra_member_agrees(multi_select_fields(), members, at, extra);
    lemma_multi_select_reads_declared(
        JsonValue::Object(members.insert(at, extra)),
        JsonValue::Object(members),
    );
}

/// A document that lacks the payload, or the options of the payload, is
/// refused for what is missing, where what is read before it can be read.
pub proof fn lemma_multi_select_missing_field(j: JsonValue)
    requires
        optional_str(j, "id"@) is Ok,
        optional_str(j, "name"@) is Ok,
        optional_str(j, "description"@) is Ok,
    ensures
        j.field("multi_select"@) is None ==> decode_multi_select(j) == Err::<
            DatabaseMultiSelectPropertyView,
            ErrorView,
        >(ErrorView::MissingField { field: "multi_select"@ }),
        required_object(j, "multi_select"@) is Ok && required_object(
            j,
            "multi_select"@,
        )->Ok_0.field("options"@) is None ==> decode_multi_select(j) == Err::<
            DatabaseMultiSelectPropertyView,
            ErrorView,
        >(ErrorView::MissingField { field: "options"@ }),
{
}

/// A payload that is read and written again reads as the same payload: as
/// many options, in the same order, each with its identifier, its name
/// and its colour.
pub proof fn lemma_multi_select_options_reserialize(j: JsonValue)
    requires
        decode_multi_select_options(j) is Ok,
    ensures
        decode_multi_select_options(
            encode_multi_select_options(decode_multi_select_options(j)->Ok_0),
        ) == decode_multi_select_options(j),
{
    lemma_multi_select_options_round_trip(decode_multi_select_options(j)->Ok_0);
}

/// A field that the table marks as required is asked for: a document that
/// lacks one is refused as the property.
pub proof fn lemma_multi_select_asks_required(j: JsonValue, i: int)
    requires
        0 <= i < multi_select_fields().len(),
        multi_select_fields()[i].required,
        j.field(multi_select_fields()[i].key) is None,
    ensures
        decode_multi_select(j) is Err,
{
    let table = multi_select_fields();
    assert(table[0].key == "id"@
        && table[1].key == "name"@
        && table[2].key == "description"@
        && table[3].key == "multi_select"@);
}

} // verus!
