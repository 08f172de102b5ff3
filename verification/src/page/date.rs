use crate::error::{outcome, Error, ErrorView};
use crate::field::{
    object, optional_object, optional_str, put, put_optional_str, put_str, read_optional_object,
    read_optional_str, with_optional_str,
};
use crate::json::{lemma_lookup_empty, lemma_lookup_push, members_of, Json, JsonValue};
use crate::others::date_time::{
    lemma_parse_wire_valid, lemma_wire_round_trip, parse_wire, wire, DateTime, DateTimeView,
};
use crate::registry::{
    agree_on, declares, lemma_extra_member_agrees, line, no_lines, sends_only, table_of, Field,
    FieldSpec, Visibility,
};
use crate::text::copy_optional;
use vstd::prelude::*;

verus! {

/// The payload of a date: the moment at which it starts, the moment at
/// which it ends where it is a span, and the name of a time zone where
/// one was given.
#[derive(Debug, PartialEq, Eq)]
pub struct PageDatePropertyParameter {
    pub start: Option<DateTime>,
    pub end: Option<DateTime>,
    pub time_zone: Option<String>,
}

/// The date of a record.
#[derive(Debug, PartialEq, Eq)]
pub struct PageDateProperty {
    /// The identifier of the property. It is read and never sent.
    pub id: Option<String>,
    /// The payload; `None` where the record has no date.
    pub date: Option<PageDatePropertyParameter>,
}

/// The mathematical value of a [`PageDatePropertyParameter`].
pub struct PageDatePropertyParameterView {
    pub start: Option<DateTimeView>,
    pub end: Option<DateTimeView>,
    pub time_zone: Option<Seq<char>>,
}

/// The mathematical value of a [`PageDateProperty`].
pub struct PageDatePropertyView {
    pub id: Option<Seq<char>>,
    pub date: Option<PageDatePropertyParameterView>,
}

impl DeepView for PageDatePropertyParameter {
    type V = PageDatePropertyParameterView;

    open spec fn deep_view(&self) -> PageDatePropertyParameterView {
        PageDatePropertyParameterView {
            start: self.start.deep_view(),
            end: self.end.deep_view(),
            time_zone: self.time_zone.deep_view(),
        }
    }
}

impl View for PageDatePropertyParameter {
    type V = PageDatePropertyParameterView;

    open spec fn view(&self) -> PageDatePropertyParameterView {
        self.deep_view()
    }
}

impl DeepView for PageDateProperty {
    type V = PageDatePropertyView;

    open spec fn deep_view(&self) -> PageDatePropertyView {
        PageDatePropertyView { id: self.id.deep_view(), date: self.date.deep_view() }
    }
}

impl View for PageDateProperty {
    type V = PageDatePropertyView;

    open spec fn view(&self) -> PageDatePropertyView {
        self.deep_view()
    }
}

/// Whether a moment, where there is one, names a day that exists.
pub open spec fn valid_moment(moment: Option<DateTimeView>) -> bool {
    match moment {
        Some(dt) => dt.valid(),
        None => true,
    }
}

impl PageDatePropertyParameterView {
    /// Whether both moments name days that exist.
    pub open spec fn valid(self) -> bool {
        valid_moment(self.start) && valid_moment(self.end)
    }
}

impl PageDatePropertyView {
    /// Whether the moments of the payload name days that exist.
    pub open spec fn valid(self) -> bool {
        match self.date {
            Some(date) => date.valid(),
            None => true,
        }
    }

    /// The property as it is sent: without what only the service fills in.
    pub open spec fn sent(self) -> PageDatePropertyView {
        PageDatePropertyView { id: None, ..self }
    }
}

/// The field table of the property.
pub open spec fn page_date_fields() -> Seq<FieldSpec> {
    seq![
        FieldSpec { key: "id"@, visibility: Visibility::ReadOnly, required: false },
        FieldSpec { key: "date"@, visibility: Visibility::ReadWrite, required: false },
    ]
}

/// The field table of the property's payload.
pub open spec fn page_date_parameter_fields() -> Seq<FieldSpec> {
    seq![
        FieldSpec { key: "start"@, visibility: Visibility::ReadWrite, required: false },
        FieldSpec { key: "end"@, visibility: Visibility::ReadWrite, required: false },
        FieldSpec { key: "time_zone"@, visibility: Visibility::ReadWrite, required: false },
    ]
}

/// The moment under `key`; nothing where the key is absent or holds
/// `null`. A text that names no moment is refused as the reading of
/// moments refuses it.
pub open spec fn optional_moment(j: JsonValue, key: Seq<char>) -> Result<
    Option<DateTimeView>,
    ErrorView,
> {
    match optional_str(j, key) {
        Err(e) => Err(e),
        Ok(None) => Ok(None),
        Ok(Some(text)) => match parse_wire(text) {
            Err(e) => Err(e),
            Ok(moment) => Ok(Some(moment)),
        },
    }
}

/// `members` with one more member behind them where there is a moment:
/// its text, with its offset.
pub open spec fn with_optional_moment(
    members: Seq<(Seq<char>, JsonValue)>,
    key: Seq<char>,
    moment: Option<DateTimeView>,
) -> Seq<(Seq<char>, JsonValue)> {
    match moment {
        Some(dt) => members.push((key, JsonValue::Str(wire(dt)))),
        None => members,
    }
}

/// What a document decodes to as the payload of a date.
pub open spec fn decode_page_date_parameter(j: JsonValue) -> Result<
    PageDatePropertyParameterView,
    ErrorView,
> {
    match optional_moment(j, "start"@) {
        Err(e) => Err(e),
        Ok(start) => match optional_moment(j, "end"@) {
            Err(e) => Err(e),
            Ok(end) => match optional_str(j, "time_zone"@) {
                Err(e) => Err(e),
                Ok(time_zone) => Ok(PageDatePropertyParameterView { start, end, time_zone }),
            },
        },
    }
}

/// The document that the payload of a date is written as.
pub open spec fn encode_page_date_parameter(p: PageDatePropertyParameterView) -> JsonValue {
    JsonValue::Object(
        with_optional_str(
            with_optional_moment(
                with_optional_moment(Seq::empty(), "start"@, p.start),
                "end"@,
                p.end,
            ),
            "time_zone"@,
            p.time_zone,
        ),
    )
}

/// What a document decodes to as the date of a record.
pub open spec fn decode_page_date(j: JsonValue) -> Result<PageDatePropertyView, ErrorView> {
    match optional_str(j, "id"@) {
        Err(e) => Err(e),
        Ok(id) => match optional_object(j, "date"@) {
            Err(e) => Err(e),
            Ok(None) => Ok(PageDatePropertyView { id, date: None }),
            Ok(Some(payload)) => match decode_page_date_parameter(payload) {
                Err(e) => Err(e),
                Ok(date) => Ok(PageDatePropertyView { id, date: Some(date) }),
            },
        },
    }
}

/// The document that the date of a record is written as: its payload, or
/// `null` where the record has no date.
pub open spec fn encode_page_date(p: PageDatePropertyView) -> JsonValue {
    JsonValue::Object(
        Seq::empty().push(
            (
                "date"@,
                match p.date {
                    Some(date) => encode_page_date_parameter(date),
                    None => JsonValue::Null,
                },
            ),
        ),
    )
}

/// The keys of a date, and those of its payload, differ from each other.
pub proof fn lemma_page_date_keys()
    ensures
        "id"@ != "date"@,
        "start"@ != "end"@,
        "start"@ != "time_zone"@,
        "end"@ != "time_zone"@,
{
    reveal_strlit("id");
    reveal_strlit("date");
    reveal_strlit("start");
    reveal_strlit("end");
    reveal_strlit("time_zone");
    assert("id"@.len() == 2);
    assert("date"@.len() == 4);
    assert("start"@.len() == 5);
    assert("end"@.len() == 3);
    assert("time_zone"@.len() == 9);
}

/// The payload of a date, written and read again, is the same payload:
/// each moment is written with its offset and names the same instant when
/// it is read.
pub proof fn lemma_page_date_parameter_round_trip(p: PageDatePropertyParameterView)
    requires
        p.valid(),
    ensures
        decode_page_date_parameter(encode_page_date_parameter(p)) == Ok::<
            PageDatePropertyParameterView,
            ErrorView,
        >(p),
{
    broadcast use {lemma_lookup_push, lemma_lookup_empty};

    lemma_page_date_keys();
    match p.start {
        Some(dt) => lemma_wire_round_trip(dt),
        None => {},
    }
    match p.end {
        Some(dt) => lemma_wire_round_trip(dt),
        None => {},
    }
}

/// The date of a record, written and read again, is the date that was
/// sent.
pub proof fn lemma_page_date_round_trip(p: PageDatePropertyView)
    requires
        p.valid(),
    ensures
        decode_page_date(encode_page_date(p)) == Ok::<PageDatePropertyView, ErrorView>(p.sent()),
{
    broadcast use {lemma_lookup_push, lemma_lookup_empty};

    lemma_page_date_keys();
    match p.date {
        Some(date) => lemma_page_date_parameter_round_trip(date),
        None => {},
    }
}

/// What is written of a date does not depend on what only the service
/// fills in.
pub proof fn lemma_page_date_elides(p: PageDatePropertyView)
    ensures
        encode_page_date(p) == encode_page_date(p.sent()),
{
}

/// Decoding a date reads the keys of its field table and no others: two
/// documents that agree on them decode alike.
pub proof fn lemma_page_date_reads_declared(a: JsonValue, b: JsonValue)
    requires
        agree_on(page_date_fields(), a, b),
    ensures
        decode_page_date(a) == decode_page_date(b),
{
    let table = page_date_fields();
    assert(table[0].key == "id"@ && table[1].key == "date"@);
}

/// A date is written with keys that its field table lets be sent, and so
/// without its identifier.
pub proof fn lemma_page_date_sends_declared(p: PageDatePropertyView)
    ensures
        sends_only(page_date_fields(), encode_page_date(p)),
        encode_page_date(p).field("id"@) is None,
{
    broadcast use {lemma_lookup_push, lemma_lookup_empty};

    lemma_page_date_keys();
    assert(page_date_fields()[1].key == "date"@);
}

/// Reads the moment under `key`.
pub fn read_optional_moment(j: &Json, key: &str) -> (r: Result<Option<DateTime>, Error>)
    ensures
        outcome(r) == optional_moment(j@, key@),
{
    match read_optional_str(j, key)? {
        None => Ok(None),
        Some(text) => Ok(Some(DateTime::from_wire(text.as_str())?)),
    }
}

/// Writes the moment under `key` where there is one, and nothing where
/// there is none.
pub fn put_optional_moment(
    members: &mut Vec<(String, Json)>,
    key: &str,
    moment: &Option<DateTime>,
)
    ensures
        members_of(final(members)@) == with_optional_moment(
            members_of(old(members)@),
            key@,
            moment.deep_view(),
        ),
{
    match moment {
        Some(dt) => {
            let text = dt.to_wire();
            put_str(members, key, text.as_str());
        },
        None => {},
    }
}

impl PageDatePropertyParameter {
    /// Reads the payload of a date from a document.
    pub fn from_json(j: &Json) -> (r: Result<PageDatePropertyParameter, Error>)
        ensures
            outcome(r) == decode_page_date_parameter(j@),
    {
        let start = read_optional_moment(j, "start")?;
        let end = read_optional_moment(j, "end")?;
        let time_zone = read_optional_str(j, "time_zone")?;
        Ok(PageDatePropertyParameter { start, end, time_zone })
    }

    /// Writes the payload of a date as a document.
    pub fn to_json(&self) -> (r: Json)
        ensures
            r@ == encode_page_date_parameter(self@),
    {
        let mut members: Vec<(String, Json)> = Vec::new();
        assert(members_of(members@) =~= Seq::empty());
        put_optional_moment(&mut members, "start", &self.start);
        put_optional_moment(&mut members, "end", &self.end);
        put_optional_str(&mut members, "time_zone", &self.time_zone);
        object(members)
    }
}

impl From<DateTime> for PageDateProperty {
    /// The date that starts at `start` and has no end.
    fn from(start: DateTime) -> (r: PageDateProperty)
        ensures
            r@ == (PageDatePropertyView {
                id: None,
                date: Some(
                    PageDatePropertyParameterView {
                        start: Some(start@),
                        end: None,
                        time_zone: None,
                    },
                ),
            }),
    {
        PageDateProperty {
            id: None,
            date: Some(
                PageDatePropertyParameter { start: Some(start), end: None, time_zone: None },
            ),
        }
    }
}

impl vstd::std_specs::convert::FromSpecImpl<DateTime> for PageDateProperty {
    open spec fn obeys_from_spec() -> bool {
        true
    }

    open spec fn from_spec(start: DateTime) -> PageDateProperty {
        PageDateProperty {
            id: None,
            date: Some(
                PageDatePropertyParameter { start: Some(start), end: None, time_zone: None },
            ),
        }
    }
}

impl PageDateProperty {
    /// Reads the date of a record from a document.
    pub fn from_json(j: &Json) -> (r: Result<PageDateProperty, Error>)
        ensures
            outcome(r) == decode_page_date(j@),
    {
        let id = read_optional_str(j, "id")?;
        let date = match read_optional_object(j, "date")? {
            None => None,
            Some(payload) => Some(PageDatePropertyParameter::from_json(payload)?),
        };
        Ok(PageDateProperty { id, date })
    }

    /// Writes the date of a record as a document, without what only the
    /// service fills in.
    pub fn to_json(&self) -> (r: Json)
        ensures
            r@ == encode_page_date(self@),
    {
        let mut members: Vec<(String, Json)> = Vec::new();
        assert(members_of(members@) =~= Seq::empty());
        let payload = match &self.date {
            Some(date) => date.to_json(),
            None => Json::Null,
        };
        put(&mut members, "date", payload);
        object(members)
    }
}

impl PageDateProperty {
    /// The field table of the property.
    pub fn fields() -> (table: Vec<Field>)
        ensures
            table_of(table@) == page_date_fields(),
    {
        let mut table = no_lines();
        line(&mut table, "id", Visibility::ReadOnly, false);
        line(&mut table, "date", Visibility::ReadWrite, false);
        assert(table_of(table@) =~= page_date_fields());
        table
    }
}

impl PageDatePropertyParameter {
    /// The field table of the property's payload.
    pub fn fields() -> (table: Vec<Field>)
        ensures
            table_of(table@) == page_date_parameter_fields(),
    {
        let mut table = no_lines();
        line(&mut table, "start", Visibility::ReadWrite, false);
        line(&mut table, "end", Visibility::ReadWrite, false);
        line(&mut table, "time_zone", Visibility::ReadWrite, false);
        assert(table_of(table@) =~= page_date_parameter_fields());
        table
    }
}

/// Reading the date of a record passes over what it does not know: a member under a key
/// that the field table has no line for, put anywhere among the members
/// of a document, changes nothing of what is read.
pub proof fn lemma_page_date_ignores_extra(
    members: Seq<(Seq<char>, JsonValue)>,
    at: int,
    extra: (Seq<char>, JsonValue),
)
    requires
        0 <= at <= members.len(),
        !declares(page_date_fields(), extra.0),
    ensures
        decode_page_date(JsonValue::Object(members.insert(at, extra))) == decode_page_date(
            JsonValue::Object(members),
        ),
{
    lemma_extra_member_agrees(page_date_fields(), members, at, extra);
    lemma_page_date_reads_declared(
        JsonValue::Object(members.insert(at, extra)),
        JsonValue::Object(members),
    );
}

/// A document that is read as the date of a record and written again
/// reads as the date that was read, without what only the service fills
/// in: each moment names the instant that it named.
pub proof fn lemma_page_date_reserialize(j: JsonValue)
    requires
        decode_page_date(j) is Ok,
    ensures
        decode_page_date(encode_page_date(decode_page_date(j)->Ok_0)) == Ok::<
            PageDatePropertyView,
            ErrorView,
        >(decode_page_date(j)->Ok_0.sent()),
{
    lemma_page_date_decoded_valid(j);
    lemma_page_date_round_trip(decode_page_date(j)->Ok_0);
}

/// The moments of a date that is read name days that exist.
pub proof fn lemma_page_date_decoded_valid(j: JsonValue)
    requires
        decode_page_date(j) is Ok,
    ensures
        decode_page_date(j)->Ok_0.valid(),
{
    match optional_object(j, "date"@) {
        Ok(Some(payload)) => {
            match optional_str(payload, "start"@) {
                Ok(Some(text)) => lemma_parse_wire_valid(text),
                _ => {},
            }
            match optional_str(payload, "end"@) {
                Ok(Some(text)) => lemma_parse_wire_valid(text),
                _ => {},
            }
        },
        _ => {},
    }
}

impl Default for PageDatePropertyParameter {
    /// A payload without a moment.
    fn default() -> (r: PageDatePropertyParameter)
        ensures
            r@ == (PageDatePropertyParameterView { start: None, end: None, time_zone: None }),
    {
        PageDatePropertyParameter { start: None, end: None, time_zone: None }
    }
}

impl Default for PageDateProperty {
    /// The property of a record that has no date.
    fn default() -> (r: PageDateProperty)
        ensures
            r@ == (PageDatePropertyView { id: None, date: None }),
    {
        PageDateProperty { id: None, date: None }
    }
}

impl Clone for PageDatePropertyParameter {
    fn clone(&self) -> (r: PageDatePropertyParameter)
        ensures
            r@ == self@,
    {
        PageDatePropertyParameter {
            start: self.start,
            end: self.end,
            time_zone: copy_optional(&self.time_zone),
        }
    }
}

impl Clone for PageDateProperty {
    fn clone(&self) -> (r: PageDateProperty)
        ensures
            r@ == self@,
    {
        PageDateProperty {
            id: copy_optional(&self.id),
            date: match &self.date {
                Some(date) => Some(date.clone()),
                None => None,
            },
        }
    }
}

} // verus!
