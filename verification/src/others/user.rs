use crate::error::{outcome, Error, ErrorView};
use crate::field::{
    object, optional_object, optional_str, put, put_str, read_optional_object, read_optional_str,
    read_required_str, read_tag, required_str, tag,
};
use crate::json::{lemma_lookup_empty, lemma_lookup_push, members_of, values_of, Json, JsonValue};
use crate::registry::{
    agree_on, declares, lemma_extra_member_agrees, line, no_lines, sends_only, table_of, Field,
    FieldSpec, Visibility,
};
use crate::text::{copy_optional, same_text};
use vstd::prelude::*;

verus! {

/// A human user. Only the identifier is sent: the name and the profile
/// are the service's.
#[derive(Debug, PartialEq, Eq)]
pub struct Person {
    pub id: String,
    /// The name that is shown for the user. It is read and never sent.
    pub name: Option<String>,
    /// Where the picture of the user lies. It is read and never sent.
    pub avatar_url: Option<String>,
    /// The address of the user. It is read and never sent.
    pub email: Option<String>,
}

/// An automated user. What the service says of it beyond its identifier
/// and its name is not read.
#[derive(Debug, PartialEq, Eq)]
pub struct Bot {
    pub id: String,
    /// The name that is shown for the user. It is read and never sent.
    pub name: Option<String>,
}

/// A user: a human one or an automated one.
#[derive(Debug, PartialEq, Eq)]
pub enum User {
    Person(Person),
    Bot(Bot),
}

/// The mathematical value of a [`Person`].
pub struct PersonView {
    pub id: Seq<char>,
    pub name: Option<Seq<char>>,
    pub avatar_url: Option<Seq<char>>,
    pub email: Option<Seq<char>>,
}

/// The mathematical value of a [`Bot`].
pub struct BotView {
    pub id: Seq<char>,
    pub name: Option<Seq<char>>,
}

/// The mathematical value of a [`User`].
pub enum UserView {
    Person(PersonView),
    Bot(BotView),
}

impl DeepView for Person {
    type V = PersonView;

    open spec fn deep_view(&self) -> PersonView {
        PersonView {
            id: self.id@,
            name: self.name.deep_view(),
            avatar_url: self.avatar_url.deep_view(),
            email: self.email.deep_view(),
        }
    }
}

impl View for Person {
    type V = PersonView;

    open spec fn view(&self) -> PersonView {
        self.deep_view()
    }
}

impl DeepView for Bot {
    type V = BotView;

    open spec fn deep_view(&self) -> BotView {
        BotView { id: self.id@, name: self.name.deep_view() }
    }
}

impl View for Bot {
    type V = BotView;

    open spec fn view(&self) -> BotView {
        self.deep_view()
    }
}

impl DeepView for User {
    type V = UserView;

    open spec fn deep_view(&self) -> UserView {
        match self {
            User::Person(p) => UserView::Person(p@),
            User::Bot(b) => UserView::Bot(b@),
        }
    }
}

impl View for User {
    type V = UserView;

    open spec fn view(&self) -> UserView {
        self.deep_view()
    }
}

impl UserView {
    /// The discriminator of the active variant.
    pub open spec fn discriminator(self) -> Seq<char> {
        match self {
            UserView::Person(_) => "person"@,
            UserView::Bot(_) => "bot"@,
        }
    }

    /// The identifier of the user.
    pub open spec fn id(self) -> Seq<char> {
        match self {
            UserView::Person(p) => p.id,
            UserView::Bot(b) => b.id,
        }
    }

    /// The user as it is sent: its identifier, without what only the
    /// service fills in.
    pub open spec fn sent(self) -> UserView {
        match self {
            UserView::Person(p) => UserView::Person(
                PersonView { id: p.id, name: None, avatar_url: None, email: None },
            ),
            UserView::Bot(b) => UserView::Bot(BotView { id: b.id, name: None }),
        }
    }
}

/// Whether `kind` is the discriminator of a variant of the family.
pub open spec fn names_user(kind: Seq<char>) -> bool {
    kind == "person"@ || kind == "bot"@
}

/// The field table of a user. Of the payloads, a document holds the one
/// that its discriminator names.
pub open spec fn user_fields() -> Seq<FieldSpec> {
    seq![
        FieldSpec { key: "type"@, visibility: Visibility::ReadWrite, required: true },
        FieldSpec { key: "id"@, visibility: Visibility::ReadWrite, required: true },
        FieldSpec { key: "name"@, visibility: Visibility::ReadOnly, required: false },
        FieldSpec { key: "avatar_url"@, visibility: Visibility::ReadOnly, required: false },
        FieldSpec { key: "person"@, visibility: Visibility::ReadWrite, required: false },
        FieldSpec { key: "bot"@, visibility: Visibility::ReadWrite, required: false },
    ]
}

/// The field table of the payload of a human user.
pub open spec fn person_fields() -> Seq<FieldSpec> {
    seq![FieldSpec { key: "email"@, visibility: Visibility::ReadOnly, required: false }]
}

/// The address in the payload of a human user; nothing where the document
/// has no payload.
pub open spec fn decode_email(j: JsonValue) -> Result<Option<Seq<char>>, ErrorView> {
    match optional_object(j, "person"@) {
        Err(e) => Err(e),
        Ok(None) => Ok(None),
        Ok(Some(person)) => optional_str(person, "email"@),
    }
}

/// What a document decodes to as a human user.
pub open spec fn decode_person(j: JsonValue) -> Result<PersonView, ErrorView> {
    match required_str(j, "id"@) {
        Err(e) => Err(e),
        Ok(id) => match optional_str(j, "name"@) {
            Err(e) => Err(e),
            Ok(name) => match optional_str(j, "avatar_url"@) {
                Err(e) => Err(e),
                Ok(avatar_url) => match decode_email(j) {
                    Err(e) => Err(e),
                    Ok(email) => Ok(PersonView { id, name, avatar_url, email }),
                },
            },
        },
    }
}

/// What a document decodes to as an automated user.
pub open spec fn decode_bot(j: JsonValue) -> Result<BotView, ErrorView> {
    match required_str(j, "id"@) {
        Err(e) => Err(e),
        Ok(id) => match optional_str(j, "name"@) {
            Err(e) => Err(e),
            Ok(name) => Ok(BotView { id, name }),
        },
    }
}

/// What a document decodes to as a user. The discriminator under `type`
/// picks the variant; one that is absent, or names neither variant, is
/// refused.
pub open spec fn decode_user(j: JsonValue) -> Result<UserView, ErrorView> {
    match tag(j, "type"@) {
        None => Err(ErrorView::UnknownVariant { family: "user"@, discriminator: None }),
        Some(kind) => if kind == "person"@ {
            match decode_person(j) {
                Err(e) => Err(e),
                Ok(p) => Ok(UserView::Person(p)),
            }
        } else if kind == "bot"@ {
            match decode_bot(j) {
                Err(e) => Err(e),
                Ok(b) => Ok(UserView::Bot(b)),
            }
        } else {
            Err(ErrorView::UnknownVariant { family: "user"@, discriminator: Some(kind) })
        },
    }
}

/// The document that a user is written as: the discriminator of the
/// active variant, an empty payload under the same word, and the
/// identifier.
pub open spec fn encode_user(u: UserView) -> JsonValue {
    JsonValue::Object(
        Seq::empty().push(("type"@, JsonValue::Str(u.discriminator()))).push(
            (u.discriminator(), JsonValue::Object(Seq::empty())),
        ).push(("id"@, JsonValue::Str(u.id()))),
    )
}

/// The keys of a user differ from each other.
pub proof fn lemma_user_keys()
    ensures
        "type"@ != "id"@,
        "type"@ != "name"@,
        "type"@ != "avatar_url"@,
        "type"@ != "person"@,
        "type"@ != "bot"@,
        "id"@ != "name"@,
        "id"@ != "avatar_url"@,
        "id"@ != "person"@,
        "id"@ != "bot"@,
        "name"@ != "avatar_url"@,
        "name"@ != "person"@,
        "name"@ != "bot"@,
        "avatar_url"@ != "person"@,
        "avatar_url"@ != "bot"@,
        "person"@ != "bot"@,
{
    reveal_strlit("type");
    reveal_strlit("id");
    reveal_strlit("name");
    reveal_strlit("avatar_url");
    reveal_strlit("person");
    reveal_strlit("bot");
    assert("type"@.len() == 4 && "type"@[0] == 't');
    assert("id"@.len() == 2);
    assert("name"@.len() == 4 && "name"@[0] == 'n');
    assert("avatar_url"@.len() == 10);
    assert("person"@.len() == 6);
    assert("bot"@.len() == 3);
}

/// A user is written under the discriminator of its active variant, with
/// a payload under the same word.
pub proof fn lemma_user_tag(u: UserView)
    ensures
        tag(encode_user(u), "type"@) == Some(u.discriminator()),
        encode_user(u).field(u.discriminator()) == Some(JsonValue::Object(Seq::empty())),
        names_user(u.discriminator()),
{
    broadcast use {lemma_lookup_push, lemma_lookup_empty};

    lemma_user_keys();
}

/// A document whose discriminator is absent, or names no variant of the
/// family, is refused as such, whatever else it holds.
pub proof fn lemma_user_unknown(j: JsonValue)
    requires
        tag(j, "type"@) is None || !names_user(tag(j, "type"@)->Some_0),
    ensures
        decode_user(j) == Err::<UserView, ErrorView>(
            ErrorView::UnknownVariant { family: "user"@, discriminator: tag(j, "type"@) },
        ),
{
}

/// A document of a user without an identifier is refused for the missing
/// identifier.
pub proof fn lemma_user_missing_field(j: JsonValue)
    requires
        tag(j, "type"@) is Some,
        names_user(tag(j, "type"@)->Some_0),
        j.field("id"@) is None,
    ensures
        decode_user(j) == Err::<UserView, ErrorView>(ErrorView::MissingField { field: "id"@ }),
{
    lemma_user_keys();
}

/// A user that is written and read again is the user that was sent.
pub proof fn lemma_user_round_trip(u: UserView)
    ensures
        decode_user(encode_user(u)) == Ok::<UserView, ErrorView>(u.sent()),
{
    broadcast use {lemma_lookup_push, lemma_lookup_empty};

    lemma_user_keys();
}

/// A document that is read as a user and written again reads as the user
/// that was read, without what only the service fills in.
pub proof fn lemma_user_reserialize(j: JsonValue)
    requires
        decode_user(j) is Ok,
    ensures
        decode_user(encode_user(decode_user(j)->Ok_0)) == Ok::<UserView, ErrorView>(
            decode_user(j)->Ok_0.sent(),
        ),
{
    lemma_user_round_trip(decode_user(j)->Ok_0);
}

/// What is written of a user does not depend on what only the service
/// fills in.
pub proof fn lemma_user_elides(u: UserView)
    ensures
        encode_user(u) == encode_user(u.sent()),
{
}

/// Decoding a user reads the keys of its field table and no others: two
/// documents that agree on them decode alike.
pub proof fn lemma_user_reads_declared(a: JsonValue, b: JsonValue)
    requires
        agree_on(user_fields(), a, b),
    ensures
        decode_user(a) == decode_user(b),
{
    let table = user_fields();
    assert(table[0].key == "type"@ && table[1].key == "id"@ && table[2].key == "name"@
        && table[3].key == "avatar_url"@ && table[4].key == "person"@ && table[5].key == "bot"@);
}

/// A user is written with keys that its field table lets be sent, and so
/// without its name and its picture.
pub proof fn lemma_user_sends_declared(u: UserView)
    ensures
        sends_only(user_fields(), encode_user(u)),
        encode_user(u).field("name"@) is None,
        encode_user(u).field("avatar_url"@) is None,
{
    broadcast use {lemma_lookup_push, lemma_lookup_empty};

    lemma_user_keys();
    let table = user_fields();
    assert(table[0].key == "type"@ && table[1].key == "id"@ && table[4].key == "person"@
        && table[5].key == "bot"@);
}

/// Reading a user passes over what it does not know: a member under a key
/// that the field table has no line for, put anywhere among the members
/// of a document, changes nothing of what is read.
pub proof fn lemma_user_ignores_extra(
    members: Seq<(Seq<char>, JsonValue)>,
    at: int,
    extra: (Seq<char>, JsonValue),
)
    requires
        0 <= at <= members.len(),
        !declares(user_fields(), extra.0),
    ensures
        decode_user(JsonValue::Object(members.insert(at, extra))) == decode_user(
            JsonValue::Object(members),
        ),
{
    lemma_extra_member_agrees(user_fields(), members, at, extra);
    lemma_user_reads_declared(
        JsonValue::Object(members.insert(at, extra)),
        JsonValue::Object(members),
    );
}

/// What the items of an array decode to as a run of users. The first item
/// that is refused decides the error.
pub open spec fn decode_users(items: Seq<JsonValue>) -> Result<Seq<UserView>, ErrorView>
    decreases items.len(),
{
    if items.len() == 0 {
        Ok(Seq::empty())
    } else {
        match decode_users(items.drop_last()) {
            Err(e) => Err(e),
            Ok(front) => match decode_user(items.last()) {
                Err(e) => Err(e),
                Ok(user) => Ok(front.push(user)),
            },
        }
    }
}

/// The items that a run of users is written as.
pub open spec fn encode_users(run: Seq<UserView>) -> Seq<JsonValue> {
    Seq::new(run.len(), |i: int| encode_user(run[i]))
}

/// A run of users as it is sent.
pub open spec fn sent_users(run: Seq<UserView>) -> Seq<UserView> {
    Seq::new(run.len(), |i: int| run[i].sent())
}

/// Once an item has been refused, the items behind it change nothing.
pub proof fn lemma_users_refused(items: Seq<JsonValue>, upto: int)
    requires
        0 <= upto <= items.len(),
        decode_users(items.take(upto)) is Err,
    ensures
        decode_users(items) == decode_users(items.take(upto)),
    decreases items.len() - upto,
{
    if upto < items.len() {
        assert(items.take(upto + 1).drop_last() =~= items.take(upto));
        lemma_users_refused(items, upto + 1);
    } else {
        assert(items.take(upto) =~= items);
    }
}

/// A run of users that is written and read again is the run that was
/// sent: as many users, in the same order.
pub proof fn lemma_users_round_trip(run: Seq<UserView>)
    ensures
        decode_users(encode_users(run)) == Ok::<Seq<UserView>, ErrorView>(sent_users(run)),
    decreases run.len(),
{
    let items = encode_users(run);
    if run.len() == 0 {
        assert(sent_users(run) =~= Seq::empty());
    } else {
        lemma_users_round_trip(run.drop_last());
        lemma_user_round_trip(run.last());
        assert(items.drop_last() =~= encode_users(run.drop_last()));
        assert(sent_users(run) =~= sent_users(run.drop_last()).push(run.last().sent()));
    }
}

impl Person {
    /// Reads a human user from a document.
    pub fn from_json(j: &Json) -> (r: Result<Person, Error>)
        ensures
            outcome(r) == decode_person(j@),
    {
        let id = read_required_str(j, "id")?;
        let name = read_optional_str(j, "name")?;
        let avatar_url = read_optional_str(j, "avatar_url")?;
        let email = match read_optional_object(j, "person")? {
            None => None,
            Some(person) => read_optional_str(person, "email")?,
        };
        Ok(Person { id, name, avatar_url, email })
    }
}

impl Bot {
    /// Reads an automated user from a document.
    pub fn from_json(j: &Json) -> (r: Result<Bot, Error>)
        ensures
            outcome(r) == decode_bot(j@),
    {
        let id = read_required_str(j, "id")?;
        let name = read_optional_str(j, "name")?;
        Ok(Bot { id, name })
    }
}

impl User {
    /// The discriminator of the active variant.
    pub fn discriminator(&self) -> (r: &'static str)
        ensures
            r@ == self@.discriminator(),
    {
        match self {
            User::Person(_) => "person",
            User::Bot(_) => "bot",
        }
    }

    /// The identifier of the user.
    pub fn id(&self) -> (r: &str)
        ensures
            r@ == self@.id(),
    {
        match self {
            User::Person(p) => p.id.as_str(),
            User::Bot(b) => b.id.as_str(),
        }
    }

    /// The human user of the identifier `id`, as a caller names one.
    pub fn person(id: &str) -> (r: User)
        ensures
            r@ == UserView::Person(
                PersonView { id: id@, name: None, avatar_url: None, email: None },
            ),
    {
        User::Person(Person { id: id.to_owned(), name: None, avatar_url: None, email: None })
    }

    /// Reads a user from a document.
    pub fn from_json(j: &Json) -> (r: Result<User, Error>)
        ensures
            outcome(r) == decode_user(j@),
    {
        match read_tag(j, "type") {
            None => Err(Error::UnknownVariant { family: "user".to_owned(), discriminator: None }),
            Some(kind) => {
                if same_text(kind.as_str(), "person") {
                    Ok(User::Person(Person::from_json(j)?))
                } else if same_text(kind.as_str(), "bot") {
                    Ok(User::Bot(Bot::from_json(j)?))
                } else {
                    Err(
                        Error::UnknownVariant {
                            family: "user".to_owned(),
                            discriminator: Some(kind),
                        },
                    )
                }
            },
        }
    }

    /// Writes the user as a document, without what only the service fills
    /// in.
    pub fn to_json(&self) -> (r: Json)
        ensures
            r@ == encode_user(self@),
    {
        let mut members: Vec<(String, Json)> = Vec::new();
        assert(members_of(members@) =~= Seq::empty());
        let payload: Vec<(String, Json)> = Vec::new();
        assert(members_of(payload@) =~= Seq::empty());
        put_str(&mut members, "type", self.discriminator());
        put(&mut members, self.discriminator(), object(payload));
        put_str(&mut members, "id", self.id());
        object(members)
    }

    /// Reads a run of users from the items of an array.
    pub fn list_from_json(items: &Vec<Json>) -> (r: Result<Vec<User>, Error>)
        ensures
            outcome(r) == decode_users(values_of(items@)),
    {
        let ghost values = values_of(items@);
        let mut run: Vec<User> = Vec::new();
        let mut i: usize = 0;
        assert(values.take(0) =~= Seq::empty());
        assert(run.deep_view() =~= Seq::empty());
        while i < items.len()
            invariant
                i <= items.len(),
                values == values_of(items@),
                decode_users(values.take(i as int)) == Ok::<Seq<UserView>, ErrorView>(
                    run.deep_view(),
                ),
            decreases items.len() - i,
        {
            assert(values.take(i + 1).drop_last() =~= values.take(i as int));
            assert(values.take(i + 1).last() == items@[i as int]@);
            match User::from_json(&items[i]) {
                Err(e) => {
                    proof {
                        lemma_users_refused(values, i + 1);
                    }
                    return Err(e);
                },
                Ok(user) => {
                    let ghost before = run.deep_view();
                    run.push(user);
                    assert(run.deep_view() =~= before.push(user@));
                },
            }
            i += 1;
        }
        assert(values.take(i as int) =~= values);
        Ok(run)
    }

    /// Writes a run of users as the items of an array.
    pub fn list_to_json(run: &Vec<User>) -> (r: Vec<Json>)
        ensures
            values_of(r@) == encode_users(run.deep_view()),
    {
        let mut items: Vec<Json> = Vec::new();
        let mut i: usize = 0;
        while i < run.len()
            invariant
                i <= run.len(),
                items.len() == i,
                forall|k: int| 0 <= k < i ==> (#[trigger] items@[k])@ == encode_user(run@[k]@),
            decreases run.len() - i,
        {
            items.push(run[i].to_json());
            i += 1;
        }
        assert(values_of(items@) =~= encode_users(run.deep_view()));
        items
    }
}

impl User {
    /// The field table of a user.
    pub fn fields() -> (table: Vec<Field>)
        ensures
            table_of(table@) == user_fields(),
    {
        let mut table = no_lines();
        line(&mut table, "type", Visibility::ReadWrite, true);
        line(&mut table, "id", Visibility::ReadWrite, true);
        line(&mut table, "name", Visibility::ReadOnly, false);
        line(&mut table, "avatar_url", Visibility::ReadOnly, false);
        line(&mut table, "person", Visibility::ReadWrite, false);
        line(&mut table, "bot", Visibility::ReadWrite, false);
        assert(table_of(table@) =~= user_fields());
        table
    }
}

impl Person {
    /// The field table of the payload of a human user.
    pub fn fields() -> (table: Vec<Field>)
        ensures
            table_of(table@) == person_fields(),
    {
        let mut table = no_lines();
        line(&mut table, "email", Visibility::ReadOnly, false);
        assert(table_of(table@) =~= person_fields());
        table
    }
}

/// A field that the table marks as required is asked for: a document that
/// lacks one is refused as a user.
pub proof fn lemma_user_asks_required(j: JsonValue, i: int)
    requires
        0 <= i < user_fields().len(),
        user_fields()[i].required,
        j.field(user_fields()[i].key) is None,
    ensures
        decode_user(j) is Err,
{
    let table = user_fields();
    assert(table[0].key == "type"@
        && table[1].key == "id"@
        && table[2].key == "name"@
        && table[3].key == "avatar_url"@
        && table[4].key == "person"@
        && table[5].key == "bot"@);
}

/// A user that is read holds the variant that the document's
/// discriminator names.
pub proof fn lemma_user_decoded_tag(j: JsonValue)
    requires
        decode_user(j) is Ok,
    ensures
        tag(j, "type"@) == Some(decode_user(j)->Ok_0.discriminator()),
{
}

impl Clone for Person {
    fn clone(&self) -> (r: Person)
        ensures
            r@ == self@,
    {
        Person {
            id: self.id.clone(),
            name: copy_optional(&self.name),
            avatar_url: copy_optional(&self.avatar_url),
            email: copy_optional(&self.email),
        }
    }
}

impl Clone for Bot {
    fn clone(&self) -> (r: Bot)
        ensures
            r@ == self@,
    {
        Bot { id: self.id.clone(), name: copy_optional(&self.name) }
    }
}

impl Clone for User {
    fn clone(&self) -> (r: User)
        ensures
            r@ == self@,
    {
        match self {
            User::Person(p) => User::Person(p.clone()),
            User::Bot(b) => User::Bot(b.clone()),
        }
    }
}

impl User {
    /// A run of the same users.
    pub fn list_clone(run: &Vec<User>) -> (r: Vec<User>)
        ensures
            r.deep_view() == run.deep_view(),
    {
        let mut copy: Vec<User> = Vec::new();
        let mut i: usize = 0;
        while i < run.len()
            invariant
                i <= run.len(),
                copy.len() == i,
                forall|k: int| 0 <= k < i ==> (#[trigger] copy@[k])@ == run@[k]@,
            decreases run.len() - i,
        {
            copy.push(run[i].clone());
            i += 1;
        }
        assert(copy.deep_view() =~= run.deep_view());
        copy
    }
}

} // verus!
