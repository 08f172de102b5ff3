use crate::error::{outcome, Error, ErrorView};
use crate::field::{array, object, put, put_str, read_tag, tag};
use crate::json::{lemma_lookup_empty, lemma_lookup_push, members_of, Json, JsonValue};
use crate::others::user::{encode_users, lemma_users_round_trip, sent_users, User};
use crate::page::date::{
    decode_page_date, encode_page_date_parameter, lemma_page_date_decoded_valid,
    lemma_page_date_parameter_round_trip, PageDateProperty, PageDatePropertyView,
};
use crate::page::people::{decode_page_people, PagePeopleProperty, PagePeoplePropertyView};
use crate::registry::{
    agree_on, declares, lemma_extra_member_agrees, line, no_lines, sends_only, table_of, Field,
    FieldSpec, Visibility,
};
use crate::text::same_text;
use vstd::prelude::*;

pub mod date;
pub mod people;
pub mod properties;

verus! {

/// The family of the properties of a record. Exactly one variant is
/// active; the discriminator that a property is written with is derived
/// from it, and is no field that could be set apart from it.
#[derive(Debug, PartialEq, Eq)]
pub enum PageProperty {
    Date(PageDateProperty),
    People(PagePeopleProperty),
}

/// The mathematical value of a [`PageProperty`].
pub enum PagePropertyView {
    Date(PageDatePropertyView),
    People(PagePeoplePropertyView),
}

impl DeepView for PageProperty {
    type V = PagePropertyView;

    open spec fn deep_view(&self) -> PagePropertyView {
        match self {
            PageProperty::Date(p) => PagePropertyView::Date(p@),
            PageProperty::People(p) => PagePropertyView::People(p@),
        }
    }
}

impl View for PageProperty {
    type V = PagePropertyView;

    open spec fn view(&self) -> PagePropertyView {
        self.deep_view()
    }
}

impl PagePropertyView {
    /// The discriminator of the active variant.
    pub open spec fn discriminator(self) -> Seq<char> {
        match self {
            PagePropertyView::Date(_) => "date"@,
            PagePropertyView::People(_) => "people"@,
        }
    }

    /// The property as it is sent.
    pub open spec fn sent(self) -> PagePropertyView {
        match self {
            PagePropertyView::Date(p) => PagePropertyView::Date(p.sent()),
            PagePropertyView::People(p) => PagePropertyView::People(p.sent()),
        }
    }

    /// Whether the moments of a date name days that exist. Every property
    /// that is held in memory is valid; so is every one that is read.
    pub open spec fn valid(self) -> bool {
        match self {
            PagePropertyView::Date(p) => p.valid(),
            PagePropertyView::People(_) => true,
        }
    }
}

/// Whether `kind` is the discriminator of a variant of the family.
pub open spec fn names_page_property(kind: Seq<char>) -> bool {
    kind == "date"@ || kind == "people"@
}

/// The field table of a property of a record. Of the payloads, a document
/// holds the one that its discriminator names.
pub open spec fn page_property_fields() -> Seq<FieldSpec> {
    seq![
        FieldSpec { key: "type"@, visibility: Visibility::ReadWrite, required: true },
        FieldSpec { key: "id"@, visibility: Visibility::ReadOnly, required: false },
        FieldSpec { key: "date"@, visibility: Visibility::ReadWrite, required: false },
        FieldSpec { key: "people"@, visibility: Visibility::ReadWrite, required: false },
    ]
}

/// What a document decodes to as a property of a record. The
/// discriminator under `type` picks the variant, and the payload is read
/// under the same word.
pub open spec fn decode_page_property(j: JsonValue) -> Result<PagePropertyView, ErrorView> {
    match tag(j, "type"@) {
        None => Err(ErrorView::UnknownVariant { family: "page_property"@, discriminator: None }),
        Some(kind) => if kind == "date"@ {
            match decode_page_date(j) {
                Err(e) => Err(e),
                Ok(p) => Ok(PagePropertyView::Date(p)),
            }
        } else if kind == "people"@ {
            match decode_page_people(j) {
                Err(e) => Err(e),
                Ok(p) => Ok(PagePropertyView::People(p)),
            }
        } else {
            Err(ErrorView::UnknownVariant { family: "page_property"@, discriminator: Some(kind) })
        },
    }
}

/// The document that a property of a record is written as: the
/// discriminator of the active variant, and the payload under the same
/// word.
pub open spec fn encode_page_property(p: PagePropertyView) -> JsonValue {
    match p {
        PagePropertyView::Date(d) => JsonValue::Object(
            Seq::empty().push(("type"@, JsonValue::Str("date"@))).push(
                (
                    "date"@,
                    match d.date {
                        Some(date) => encode_page_date_parameter(date),
                        None => JsonValue::Null,
                    },
                ),
            ),
        ),
        PagePropertyView::People(pp) => JsonValue::Object(
            Seq::empty().push(("type"@, JsonValue::Str("people"@))).push(
                ("people"@, JsonValue::Array(encode_users(pp.people))),
            ),
        ),
    }
}

/// The keys of a property of a record differ from each other.
pub proof fn lemma_page_property_keys()
    ensures
        "type"@ != "id"@,
        "type"@ != "date"@,
        "type"@ != "people"@,
        "id"@ != "date"@,
        "id"@ != "people"@,
        "date"@ != "people"@,
{
    reveal_strlit("type");
    reveal_strlit("id");
    reveal_strlit("date");
    reveal_strlit("people");
    assert("type"@.len() == 4 && "type"@[0] == 't');
    assert("id"@.len() == 2);
    assert("date"@.len() == 4 && "date"@[0] == 'd');
    assert("people"@.len() == 6);
}

/// A property is written under the discriminator of its active variant,
/// with its payload under the same word: no property is written under the
/// discriminator of another variant.
pub proof fn lemma_page_property_tag(p: PagePropertyView)
    ensures
        tag(encode_page_property(p), "type"@) == Some(p.discriminator()),
        encode_page_property(p).field(p.discriminator()) is Some,
        names_page_property(p.discriminator()),
{
    broadcast use {lemma_lookup_push, lemma_lookup_empty};

    lemma_page_property_keys();
}

/// A property that is read holds the variant that the document's
/// discriminator names, and moments that name days that exist.
pub proof fn lemma_page_property_decoded(j: JsonValue)
    requires
        decode_page_property(j) is Ok,
    ensures
        tag(j, "type"@) == Some(decode_page_property(j)->Ok_0.discriminator()),
        decode_page_property(j)->Ok_0.valid(),
{
    if tag(j, "type"@) == Some("date"@) {
        lemma_page_date_decoded_valid(j);
    }
}

/// A document whose discriminator is absent, or names no variant of the
/// family, is refused as such, whatever else it holds.
pub proof fn lemma_page_property_unknown(j: JsonValue)
    requires
        tag(j, "type"@) is None || !names_page_property(tag(j, "type"@)->Some_0),
    ensures
        decode_page_property(j) == Err::<PagePropertyView, ErrorView>(
            ErrorView::UnknownVariant { family: "page_property"@, discriminator: tag(j, "type"@) },
        ),
{
}

/// A property that is written and read again is the property that was
/// sent.
pub proof fn lemma_page_property_round_trip(p: PagePropertyView)
    requires
        p.valid(),
    ensures
        decode_page_property(encode_page_property(p)) == Ok::<PagePropertyView, ErrorView>(
            p.sent(),
        ),
{
    broadcast use {lemma_lookup_push, lemma_lookup_empty};

    lemma_page_property_keys();
    match p {
        PagePropertyView::Date(d) => match d.date {
            Some(date) => lemma_page_date_parameter_round_trip(date),
            None => {},
        },
        PagePropertyView::People(pp) => lemma_users_round_trip(pp.people),
    }
}

/// A document that is read as a property and written again reads as the
/// property that was read, without what only the service fills in.
pub proof fn lemma_page_property_reserialize(j: JsonValue)
    requires
        decode_page_property(j) is Ok,
    ensures
        decode_page_property(encode_page_property(decode_page_property(j)->Ok_0)) == Ok::<
            PagePropertyView,
            ErrorView,
        >(decode_page_property(j)->Ok_0.sent()),
{
    lemma_page_property_decoded(j);
    lemma_page_property_round_trip(decode_page_property(j)->Ok_0);
}

/// What is written of a property does not depend on what only the service
/// fills in.
pub proof fn lemma_page_property_elides(p: PagePropertyView)
    ensures
        encode_page_property(p) == encode_page_property(p.sent()),
{
    match p {
        PagePropertyView::Date(_) => {},
        PagePropertyView::People(pp) => {
            assert(encode_users(pp.people) =~= encode_users(sent_users(pp.people)));
        },
    }
}

/// Decoding a property reads the keys of its field table and no others:
/// two documents that agree on them decode alike.
pub proof fn lemma_page_property_reads_declared(a: JsonValue, b: JsonValue)
    requires
        agree_on(page_property_fields(), a, b),
    ensures
        decode_page_property(a) == decode_page_property(b),
{
    let table = page_property_fields();
    assert(table[0].key == "type"@ && table[1].key == "id"@ && table[2].key == "date"@
        && table[3].key == "people"@);
}

/// A property is written with keys that its field table lets be sent, and
/// so without its identifier.
pub proof fn lemma_page_property_sends_declared(p: PagePropertyView)
    ensures
        sends_only(page_property_fields(), encode_page_property(p)),
        encode_page_property(p).field("id"@) is None,
{
    broadcast use {lemma_lookup_push, lemma_lookup_empty};

    lemma_page_property_keys();
    let table = page_property_fields();
    assert(table[0].key == "type"@ && table[2].key == "date"@ && table[3].key == "people"@);
}

/// Reading a property of a record passes over what it does not know: a member under a key
/// that the field table has no line for, put anywhere among the members
/// of a document, changes nothing of what is read.
pub proof fn lemma_page_property_ignores_extra(
    members: Seq<(Seq<char>, JsonValue)>,
    at: int,
    extra: (Seq<char>, JsonValue),
)
    requires
        0 <= at <= members.len(),
        !declares(page_property_fields(), extra.0),
    ensures
        decode_page_property(JsonValue::Object(members.insert(at, extra))) == decode_page_property(
            JsonValue::Object(members),
        ),
{
    lemma_extra_member_agrees(page_property_fields(), members, at, extra);
    lemma_page_property_reads_declared(
        JsonValue::Object(members.insert(at, extra)),
        JsonValue::Object(members),
    );
}

impl PageProperty {
    /// The discriminator of the active variant.
    pub fn discriminator(&self) -> (r: &'static str)
        ensures
            r@ == self@.discriminator(),
    {
        match self {
            PageProperty::Date(_) => "date",
            PageProperty::People(_) => "people",
        }
    }

    /// Reads a property of a record from a document.
    pub fn from_json(j: &Json) -> (r: Result<PageProperty, Error>)
        ensures
            outcome(r) == decode_page_property(j@),
    {
        match read_tag(j, "type") {
            None => Err(Error::UnknownVariant {
                family: "page_property".to_owned(),
                discriminator: None,
            }),
            Some(kind) => {
                if same_text(kind.as_str(), "date") {
                    Ok(PageProperty::Date(PageDateProperty::from_json(j)?))
                } else if same_text(kind.as_str(), "people") {
                    Ok(PageProperty::People(PagePeopleProperty::from_json(j)?))
                } else {
                    Err(Error::UnknownVariant {
                        family: "page_property".to_owned(),
                        discriminator: Some(kind),
                    })
                }
            },
        }
    }

    /// Writes the property as a document, without what only the service
    /// fills in.
    pub fn to_json(&self) -> (r: Json)
        ensures
            r@ == encode_page_property(self@),
    {
        let mut members: Vec<(String, Json)> = Vec::new();
        assert(members_of(members@) =~= Seq::empty());
        match self {
            PageProperty::Date(p) => {
                let payload = match &p.date {
                    Some(date) => date.to_json(),
                    None => Json::Null,
                };
                put_str(&mut members, "type", "date");
                put(&mut members, "date", payload);
            },
            PageProperty::People(p) => {
                put_str(&mut members, "type", "people");
                put(&mut members, "people", array(User::list_to_json(&p.people)));
            },
        }
        object(members)
    }
}

impl PageProperty {
    /// The field table of a property of a record.
    pub fn fields() -> (table: Vec<Field>)
        ensures
            table_of(table@) == page_property_fields(),
    {
        let mut table = no_lines();
        line(&mut table, "type", Visibility::ReadWrite, true);
        line(&mut table, "id", Visibility::ReadOnly, false);
        line(&mut table, "date", Visibility::ReadWrite, false);
        line(&mut table, "people", Visibility::ReadWrite, false);
        assert(table_of(table@) =~= page_property_fields());
        table
    }
}

/// A field that the table marks as required is asked for: a document that
/// lacks one is refused as a property of a record.
pub proof fn lemma_page_property_asks_required(j: JsonValue, i: int)
    requires
        0 <= i < page_property_fields().len(),
        page_property_fields()[i].required,
        j.field(page_property_fields()[i].key) is None,
    ensures
        decode_page_property(j) is Err,
{
    let table = page_property_fields();
    assert(table[0].key == "type"@
        && table[1].key == "id"@
        && table[2].key == "date"@
        && table[3].key == "people"@);
}

impl Clone for PageProperty {
    fn clone(&self) -> (r: PageProperty)
        ensures
            r@ == self@,
    {
        match self {
            PageProperty::Date(p) => PageProperty::Date(p.clone()),
            PageProperty::People(p) => PageProperty::People(p.clone()),
        }
    }
}

} // verus!
