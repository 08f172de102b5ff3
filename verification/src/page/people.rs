use crate::error::{outcome, Error, ErrorView};
use crate::field::{
    array, object, optional_str, put, read_optional_str, read_required_array, required_array,
};
use crate::json::{lemma_lookup_empty, lemma_lookup_push, members_of, Json, JsonValue};
use crate::others::user::{
    decode_users, encode_users, lemma_users_round_trip, sent_users, User, UserView,
};
use crate::registry::{
    agree_on, declares, lemma_extra_member_agrees, line, no_lines, sends_only, table_of, Field,
    FieldSpec, Visibility,
};
use crate::text::copy_optional;
use vstd::prelude::*;

verus! {

/// The users that a record names.
#[derive(Debug, PartialEq, Eq)]
pub struct PagePeopleProperty {
    /// The identifier of the property. It is read and never sent.
    pub id: Option<String>,
    /// The users, in the order in which the record names them.
    pub people: Vec<User>,
}

/// The mathematical value of a [`PagePeopleProperty`].
pub struct PagePeoplePropertyView {
    pub id: Option<Seq<char>>,
    pub people: Seq<UserView>,
}

impl DeepView for PagePeopleProperty {
    type V = PagePeoplePropertyView;

    open spec fn deep_view(&self) -> PagePeoplePropertyView {
        PagePeoplePropertyView { id: self.id.deep_view(), people: self.people.deep_view() }
    }
}

impl View for PagePeopleProperty {
    type V = PagePeoplePropertyView;

    open spec fn view(&self) -> PagePeoplePropertyView {
        self.deep_view()
    }
}

impl PagePeoplePropertyView {
    /// The property as it is sent: its users by their identifiers, without
    /// what only the service fills in.
    pub open spec fn sent(self) -> PagePeoplePropertyView {
        PagePeoplePropertyView { id: None, people: sent_users(self.people) }
    }
}

/// The field table of the property.
pub open spec fn page_people_fields() -> Seq<FieldSpec> {
    seq![
        FieldSpec { key: "id"@, visibility: Visibility::ReadOnly, required: false },
        FieldSpec { key: "people"@, visibility: Visibility::ReadWrite, required: true },
    ]
}

/// What a document decodes to as the users of a record.
pub open spec fn decode_page_people(j: JsonValue) -> Result<PagePeoplePropertyView, ErrorView> {
    match optional_str(j, "id"@) {
        Err(e) => Err(e),
        Ok(id) => match required_array(j, "people"@) {
            Err(e) => Err(e),
            Ok(items) => match decode_users(items) {
                Err(e) => Err(e),
                Ok(people) => Ok(PagePeoplePropertyView { id, people }),
            },
        },
    }
}

/// The document that the users of a record are written as.
pub open spec fn encode_page_people(p: PagePeoplePropertyView) -> JsonValue {
    JsonValue::Object(Seq::empty().push(("people"@, JsonValue::Array(encode_users(p.people)))))
}

/// The keys of the property differ from each other.
pub proof fn lemma_page_people_keys()
    ensures
        "id"@ != "people"@,
{
    reveal_strlit("id");
    reveal_strlit("people");
    assert("id"@.len() == 2);
    assert("people"@.len() == 6);
}

/// The users of a record, written and read again, are the users that were
/// sent.
pub proof fn lemma_page_people_round_trip(p: PagePeoplePropertyView)
    ensures
        decode_page_people(encode_page_people(p)) == Ok::<PagePeoplePropertyView, ErrorView>(
            p.sent(),
        ),
{
    broadcast use {lemma_lookup_push, lemma_lookup_empty};

    lemma_page_people_keys();
    lemma_users_round_trip(p.people);
}

/// A document that is read as the users of a record and written again
/// reads as what was read, without what only the service fills in.
pub proof fn lemma_page_people_reserialize(j: JsonValue)
    requires
        decode_page_people(j) is Ok,
    ensures
        decode_page_people(encode_page_people(decode_page_people(j)->Ok_0)) == Ok::<
            PagePeoplePropertyView,
            ErrorView,
        >(decode_page_people(j)->Ok_0.sent()),
{
    lemma_page_people_round_trip(decode_page_people(j)->Ok_0);
}

/// What is written of the property does not depend on what only the
/// service fills in.
pub proof fn lemma_page_people_elides(p: PagePeoplePropertyView)
    ensures
        encode_page_people(p) == encode_page_people(p.sent()),
{
    assert(encode_users(p.people) =~= encode_users(sent_users(p.people)));
}

/// A document without users is refused for the missing users, where its
/// identifier can be read.
pub proof fn lemma_page_people_missing_field(j: JsonValue)
    requires
        optional_str(j, "id"@) is Ok,
        j.field("people"@) is None,
    ensures
        decode_page_people(j) == Err::<PagePeoplePropertyView, ErrorView>(
            ErrorView::MissingField { field: "people"@ },
        ),
{
}

/// Decoding the property reads the keys of its field table and no others:
/// two documents that agree on them decode alike.
pub proof fn lemma_page_people_reads_declared(a: JsonValue, b: JsonValue)
    requires
        agree_on(page_people_fields(), a, b),
    ensures
        decode_page_people(a) == decode_page_people(b),
{
    let table = page_people_fields();
    assert(table[0].key == "id"@ && table[1].key == "people"@);
}

/// The property is written with keys that its field table lets be sent,
/// and so without its identifier.
pub proof fn lemma_page_people_sends_declared(p: PagePeoplePropertyView)
    ensures
        sends_only(page_people_fields(), encode_page_people(p)),
        encode_page_people(p).field("id"@) is None,
{
    broadcast use {lemma_lookup_push, lemma_lookup_empty};

    lemma_page_people_keys();
    assert(page_people_fields()[1].key == "people"@);
}

/// Reading the users of a record passes over what it does not know: a member under a key
/// that the field table has no line for, put anywhere among the members
/// of a document, changes nothing of what is read.
pub proof fn lemma_page_people_ignores_extra(
    members: Seq<(Seq<char>, JsonValue)>,
    at: int,
    extra: (Seq<char>, JsonValue),
)
    requires
        0 <= at <= members.len(),
        !declares(page_people_fields(), extra.0),
    ensures
        decode_page_people(JsonValue::Object(members.insert(at, extra))) == decode_page_people(
            JsonValue::Object(members),
        ),
{
    lemma_extra_member_agrees(page_people_fields(), members, at, extra);
    lemma_page_people_reads_declared(
        JsonValue::Object(members.insert(at, extra)),
        JsonValue::Object(members),
    );
}

impl Default for PagePeopleProperty {
    /// The property of a record that names no user.
    fn default() -> (r: PagePeopleProperty)
        ensures
            r@ == (PagePeoplePropertyView { id: None, people: Seq::empty() }),
    {
        let people: Vec<User> = Vec::new();
        assert(people.deep_view() =~= Seq::empty());
        PagePeopleProperty { id: None, people }
    }
}

impl PagePeopleProperty {
    /// Sets the users.
    pub fn people(self, people: Vec<User>) -> (r: PagePeopleProperty)
        ensures
            r@ == (PagePeoplePropertyView { people: people.deep_view(), ..self@ }),
    {
        PagePeopleProperty { id: self.id, people }
    }

    /// Reads the users of a record from a document.
    pub fn from_json(j: &Json) -> (r: Result<PagePeopleProperty, Error>)
        ensures
            outcome(r) == decode_page_people(j@),
    {
        let id = read_optional_str(j, "id")?;
        let items = read_required_array(j, "people")?;
        let people = User::list_from_json(items)?;
        Ok(PagePeopleProperty { id, people })
    }

    /// Writes the users of a record as a document, without what only the
    /// service fills in.
    pub fn to_json(&self) -> (r: Json)
        ensures
            r@ == encode_page_people(self@),
    {
        let mut members: Vec<(String, Json)> = Vec::new();
        assert(members_of(members@) =~= Seq::empty());
        put(&mut members, "people", array(User::list_to_json(&self.people)));
        object(members)
    }
}

impl PagePeopleProperty {
    /// The field table of the property.
    pub fn fields() -> (table: Vec<Field>)
        ensures
            table_of(table@) == page_people_fields(),
    {
        let mut table = no_lines();
        line(&mut table, "id", Visibility::ReadOnly, false);
        line(&mut table, "people", Visibility::ReadWrite, true);
        assert(table_of(table@) =~= page_people_fields());
        table
    }
}

/// A field that the table marks as required is asked for: a document that
/// lacks one is refused as the users of a record.
pub proof fn lemma_page_people_asks_required(j: JsonValue, i: int)
    requires
        0 <= i < page_people_fields().len(),
        page_people_fields()[i].required,
        j.field(page_people_fields()[i].key) is None,
    ensures
        decode_page_people(j) is Err,
{
    let table = page_people_fields();
    assert(table[0].key == "id"@ && table[1].key == "people"@);
}

impl Clone for PagePeopleProperty {
    fn clone(&self) -> (r: PagePeopleProperty)
        ensures
            r@ == self@,
    {
        PagePeopleProperty { id: copy_optional(&self.id), people: User::list_clone(&self.people) }
    }
}

} // verus!
