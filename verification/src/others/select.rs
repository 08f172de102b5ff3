use crate::error::{outcome, Error, ErrorView};
use crate::field::{
    object, optional_str, put_optional_str, put_str, read_optional_str, read_required_str,
    required_str, with_optional_str,
};
use crate::json::{lemma_lookup_empty, lemma_lookup_push, values_of, Json, JsonValue};
use crate::registry::{
    agree_on, declares, lemma_extra_member_agrees, line, no_lines, sends_only, table_of, Field,
    FieldSpec, Visibility,
};
use crate::text::same_text;
use vstd::prelude::*;

verus! {

/// The palette that an option's colour is drawn from.
#[derive(Clone, Copy, Debug, PartialEq, Eq, Structural)]
pub enum SelectColor {
    Default,
    Gray,
    Brown,
    Orange,
    Yellow,
    Green,
    Blue,
    Purple,
    Pink,
    Red,
}

impl DeepView for SelectColor {
    type V = SelectColor;

    open spec fn deep_view(&self) -> SelectColor {
        *self
    }
}

impl View for SelectColor {
    type V = SelectColor;

    open spec fn view(&self) -> SelectColor {
        *self
    }
}

/// The name that a colour is written with.
pub open spec fn color_name(color: SelectColor) -> Seq<char> {
    match color {
        SelectColor::Default => "default"@,
        SelectColor::Gray => "gray"@,
        SelectColor::Brown => "brown"@,
        SelectColor::Orange => "orange"@,
        SelectColor::Yellow => "yellow"@,
        SelectColor::Green => "green"@,
        SelectColor::Blue => "blue"@,
        SelectColor::Purple => "purple"@,
        SelectColor::Pink => "pink"@,
        SelectColor::Red => "red"@,
    }
}

/// The colour that `name` is the name of.
pub open spec fn color_named(name: Seq<char>) -> Option<SelectColor> {
    if name == "default"@ {
        Some(SelectColor::Default)
    } else if name == "gray"@ {
        Some(SelectColor::Gray)
    } else if name == "brown"@ {
        Some(SelectColor::Brown)
    } else if name == "orange"@ {
        Some(SelectColor::Orange)
    } else if name == "yellow"@ {
        Some(SelectColor::Yellow)
    } else if name == "green"@ {
        Some(SelectColor::Green)
    } else if name == "blue"@ {
        Some(SelectColor::Blue)
    } else if name == "purple"@ {
        Some(SelectColor::Purple)
    } else if name == "pink"@ {
        Some(SelectColor::Pink)
    } else if name == "red"@ {
        Some(SelectColor::Red)
    } else {
        None
    }
}

/// Every colour is found again under its name.
pub proof fn lemma_color_named_name(color: SelectColor)
    ensures
        color_named(color_name(color)) == Some(color),
{
    reveal_strlit("default");
    reveal_strlit("gray");
    reveal_strlit("brown");
    reveal_strlit("orange");
    reveal_strlit("yellow");
    reveal_strlit("green");
    reveal_strlit("blue");
    reveal_strlit("purple");
    reveal_strlit("pink");
    reveal_strlit("red");
    assert("default"@.len() == 7);
    assert("gray"@.len() == 4 && "gray"@[0] == 'g');
    assert("brown"@.len() == 5 && "brown"@[0] == 'b');
    assert("orange"@.len() == 6 && "orange"@[0] == 'o');
    assert("yellow"@.len() == 6 && "yellow"@[0] == 'y');
    assert("green"@.len() == 5 && "green"@[0] == 'g');
    assert("blue"@.len() == 4 && "blue"@[0] == 'b');
    assert("purple"@.len() == 6 && "purple"@[0] == 'p');
    assert("pink"@.len() == 4 && "pink"@[0] == 'p');
    assert("red"@.len() == 3);
}

impl Default for SelectColor {
    fn default() -> (r: SelectColor)
        ensures
            r == SelectColor::Default,
    {
        SelectColor::Default
    }
}

impl SelectColor {
    /// The name that the colour is written with.
    pub fn name(&self) -> (r: &'static str)
        ensures
            r@ == color_name(*self),
    {
        match self {
            SelectColor::Default => "default",
            SelectColor::Gray => "gray",
            SelectColor::Brown => "brown",
            SelectColor::Orange => "orange",
            SelectColor::Yellow => "yellow",
            SelectColor::Green => "green",
            SelectColor::Blue => "blue",
            SelectColor::Purple => "purple",
            SelectColor::Pink => "pink",
            SelectColor::Red => "red",
        }
    }

    /// The colour that `name` names, if it names one.
    pub fn parse(name: &str) -> (r: Option<SelectColor>)
        ensures
            r == color_named(name@),
    {
        if same_text(name, "default") {
            Some(SelectColor::Default)
        } else if same_text(name, "gray") {
            Some(SelectColor::Gray)
        } else if same_text(name, "brown") {
            Some(SelectColor::Brown)
        } else if same_text(name, "orange") {
            Some(SelectColor::Orange)
        } else if same_text(name, "yellow") {
            Some(SelectColor::Yellow)
        } else if same_text(name, "green") {
            Some(SelectColor::Green)
        } else if same_text(name, "blue") {
            Some(SelectColor::Blue)
        } else if same_text(name, "purple") {
            Some(SelectColor::Purple)
        } else if same_text(name, "pink") {
            Some(SelectColor::Pink)
        } else if same_text(name, "red") {
            Some(SelectColor::Red)
        } else {
            None
        }
    }
}

/// One option of a select or multi-select property.
#[derive(Clone, Debug, PartialEq, Eq)]
pub struct Select {
    /// The identifier that the service gave the option; `None` until it has
    /// given one.
    pub id: Option<String>,
    pub name: String,
    pub color: SelectColor,
}

/// The mathematical value of a [`Select`].
pub struct SelectView {
    pub id: Option<Seq<char>>,
    pub name: Seq<char>,
    pub color: SelectColor,
}

impl DeepView for Select {
    type V = SelectView;

    open spec fn deep_view(&self) -> SelectView {
        SelectView { id: self.id.deep_view(), name: self.name@, color: self.color }
    }
}

impl View for Select {
    type V = SelectView;

    open spec fn view(&self) -> SelectView {
        self.deep_view()
    }
}

/// The field table of an option.
pub open spec fn select_fields() -> Seq<FieldSpec> {
    seq![
        FieldSpec { key: "id"@, visibility: Visibility::ReadWrite, required: false },
        FieldSpec { key: "name"@, visibility: Visibility::ReadWrite, required: true },
        FieldSpec { key: "color"@, visibility: Visibility::ReadWrite, required: false },
    ]
}

/// The colour under `key`; the default colour where the key is absent or
/// holds `null`.
pub open spec fn optional_color(j: JsonValue, key: Seq<char>) -> Result<SelectColor, ErrorView> {
    match optional_str(j, key) {
        Err(e) => Err(e),
        Ok(None) => Ok(SelectColor::Default),
        Ok(Some(name)) => match color_named(name) {
            Some(color) => Ok(color),
            None => Err(ErrorView::InvalidEnumValue { field: key, received: name }),
        },
    }
}

/// What a document decodes to as an option.
pub open spec fn decode_select(j: JsonValue) -> Result<SelectView, ErrorView> {
    match optional_str(j, "id"@) {
        Err(e) => Err(e),
        Ok(id) => match required_str(j, "name"@) {
            Err(e) => Err(e),
            Ok(name) => match optional_color(j, "color"@) {
                Err(e) => Err(e),
                Ok(color) => Ok(SelectView { id, name, color }),
            },
        },
    }
}

/// The document that an option is written as.
pub open spec fn encode_select(s: SelectView) -> JsonValue {
    JsonValue::Object(
        with_optional_str(Seq::empty(), "id"@, s.id).push(("name"@, JsonValue::Str(s.name))).push(
            ("color"@, JsonValue::Str(color_name(s.color))),
        ),
    )
}

/// The keys of an option differ from each other.
pub proof fn lemma_select_keys()
    ensures
        "id"@ != "name"@,
        "id"@ != "color"@,
        "name"@ != "color"@,
{
    reveal_strlit("id");
    reveal_strlit("name");
    reveal_strlit("color");
    assert("id"@.len() == 2);
    assert("name"@.len() == 4);
    assert("color"@.len() == 5);
}

/// An option that is written and read again is the same option.
pub proof fn lemma_select_round_trip(s: SelectView)
    ensures
        decode_select(encode_select(s)) == Ok::<SelectView, ErrorView>(s),
{
    broadcast use {lemma_lookup_push, lemma_lookup_empty};

    lemma_select_keys();
    lemma_color_named_name(s.color);
}

/// Decoding an option reads the keys of its field table and no others:
/// two documents that agree on them decode alike.
pub proof fn lemma_select_reads_declared(a: JsonValue, b: JsonValue)
    requires
        agree_on(select_fields(), a, b),
    ensures
        decode_select(a) == decode_select(b),
{
    let table = select_fields();
    assert(table[0].key == "id"@ && table[1].key == "name"@ && table[2].key == "color"@);
}

/// An option is written with keys of its field table only.
pub proof fn lemma_select_sends_declared(s: SelectView)
    ensures
        sends_only(select_fields(), encode_select(s)),
{
    broadcast use {lemma_lookup_push, lemma_lookup_empty};

    let table = select_fields();
    assert(table[0].key == "id"@ && table[1].key == "name"@ && table[2].key == "color"@);
}

/// What the items of an array decode to as a run of options. The first
/// item that is refused decides the error.
pub open spec fn decode_selects(items: Seq<JsonValue>) -> Result<Seq<SelectView>, ErrorView>
    decreases items.len(),
{
    if items.len() == 0 {
        Ok(Seq::empty())
    } else {
        match decode_selects(items.drop_last()) {
            Err(e) => Err(e),
            Ok(front) => match decode_select(items.last()) {
                Err(e) => Err(e),
                Ok(option) => Ok(front.push(option)),
            },
        }
    }
}

/// The items that a run of options is written as.
pub open spec fn encode_selects(run: Seq<SelectView>) -> Seq<JsonValue> {
    Seq::new(run.len(), |i: int| encode_select(run[i]))
}

/// Once an item has been refused, the items behind it change nothing.
pub proof fn lemma_selects_refused(items: Seq<JsonValue>, upto: int)
    requires
        0 <= upto <= items.len(),
        decode_selects(items.take(upto)) is Err,
    ensures
        decode_selects(items) == decode_selects(items.take(upto)),
    decreases items.len() - upto,
{
    if upto < items.len() {
        assert(items.take(upto + 1).drop_last() =~= items.take(upto));
        lemma_selects_refused(items, upto + 1);
    } else {
        assert(items.take(upto) =~= items);
    }
}

/// A run of options that is written and read again is the same run: as
/// many options, in the same order, each with its identifier, its name and
/// its colour.
pub proof fn lemma_selects_round_trip(run: Seq<SelectView>)
    ensures
        decode_selects(encode_selects(run)) == Ok::<Seq<SelectView>, ErrorView>(run),
    decreases run.len(),
{
    let items = encode_selects(run);
    if run.len() == 0 {
        assert(run =~= Seq::empty());
    } else {
        lemma_selects_round_trip(run.drop_last());
        lemma_select_round_trip(run.last());
        assert(items.drop_last() =~= encode_selects(run.drop_last()));
        assert(run =~= run.drop_last().push(run.last()));
    }
}

/// A run of options is read item by item: as many options as items, the
/// option at each place read from the item at that place.
pub proof fn lemma_selects_pointwise(items: Seq<JsonValue>)
    requires
        decode_selects(items) is Ok,
    ensures
        decode_selects(items)->Ok_0.len() == items.len(),
        forall|i: int|
            0 <= i < items.len() ==> decode_select(#[trigger] items[i]) == Ok::<
                SelectView,
                ErrorView,
            >(decode_selects(items)->Ok_0[i]),
    decreases items.len(),
{
    if items.len() > 0 {
        lemma_selects_pointwise(items.drop_last());
        let front = decode_selects(items.drop_last())->Ok_0;
        assert forall|i: int| 0 <= i < items.len() implies decode_select(#[trigger] items[i])
            == Ok::<SelectView, ErrorView>(decode_selects(items)->Ok_0[i]) by {
            if i < items.len() - 1 {
                assert(items[i] == items.drop_last()[i]);
            }
        }
    }
}

impl From<&str> for Select {
    /// An option of the name `name`, in the default colour, which the
    /// service has given no identifier yet.
    fn from(name: &str) -> (r: Select)
        ensures
            r@ == (SelectView { id: None, name: name@, color: SelectColor::Default }),
    {
        Select { id: None, name: name.to_owned(), color: SelectColor::Default }
    }
}

impl vstd::std_specs::convert::FromSpecImpl<&str> for Select {
    open spec fn obeys_from_spec() -> bool {
        false
    }

    open spec fn from_spec(name: &str) -> Select {
        choose|s: Select| s@ == (SelectView { id: None, name: name@, color: SelectColor::Default })
    }
}

impl Select {
    /// Sets the colour.
    pub fn color(self, color: SelectColor) -> (r: Select)
        ensures
            r@ == (SelectView { color, ..self@ }),
    {
        Select { id: self.id, name: self.name, color }
    }

    /// Reads a run of options from the items of an array.
    pub fn list_from_json(items: &Vec<Json>) -> (r: Result<Vec<Select>, Error>)
        ensures
            outcome(r) == decode_selects(values_of(items@)),
    {
        let ghost values = values_of(items@);
        let mut run: Vec<Select> = Vec::new();
        let mut i: usize = 0;
        assert(values.take(0) =~= Seq::empty());
        assert(run.deep_view() =~= Seq::empty());
        while i < items.len()
            invariant
                i <= items.len(),
                values == values_of(items@),
                decode_selects(values.take(i as int)) == Ok::<Seq<SelectView>, ErrorView>(
                    run.deep_view(),
                ),
            decreases items.len() - i,
        {
            assert(values.take(i + 1).drop_last() =~= values.take(i as int));
            assert(values.take(i + 1).last() == items@[i as int]@);
            match Select::from_json(&items[i]) {
                Err(e) => {
                    proof {
                        lemma_selects_refused(values, i + 1);
                    }
                    return Err(e);
                },
                Ok(option) => {
                    let ghost before = run.deep_view();
                    run.push(option);
                    assert(run.deep_view() =~= before.push(option@));
                },
            }
            i += 1;
        }
        assert(values.take(i as int) =~= values);
        Ok(run)
    }

    /// Writes a run of options as the items of an array.
    pub fn list_to_json(run: &Vec<Select>) -> (r: Vec<Json>)
        ensures
            values_of(r@) == encode_selects(run.deep_view()),
    {
        let mut items: Vec<Json> = Vec::new();
        let mut i: usize = 0;
        while i < run.len()
            invariant
                i <= run.len(),
                items.len() == i,
                forall|k: int| 0 <= k < i ==> (#[trigger] items@[k])@ == encode_select(run@[k]@),
            decreases run.len() - i,
        {
            items.push(run[i].to_json());
            i += 1;
        }
        assert(values_of(items@) =~= encode_selects(run.deep_view()));
        items
    }

    /// Reads an option from a document.
    pub fn from_json(j: &Json) -> (r: Result<Select, Error>)
        ensures
            outcome(r) == decode_select(j@),
    {
        let id = match read_optional_str(j, "id") {
            Ok(v) => v,
            Err(e) => { return Err(e); },
        };
        let name = match read_required_str(j, "name") {
            Ok(v) => v,
            Err(e) => { return Err(e); },
        };
        let color = match read_optional_color(j, "color") {
            Ok(v) => v,
            Err(e) => { return Err(e); },
        };
        Ok(Select { id, name, color })
    }

    /// Writes the option as a document.
    pub fn to_json(&self) -> (r: Json)
        ensures
            r@ == encode_select(self@),
    {
        let mut members: Vec<(String, Json)> = Vec::new();
        assert(crate::json::members_of(members@) =~= Seq::empty());
        put_optional_str(&mut members, "id", &self.id);
        put_str(&mut members, "name", self.name.as_str());
        put_str(&mut members, "color", self.color.name());
        object(members)
    }
}

/// Reads the colour under `key`.
pub fn read_optional_color(j: &Json, key: &str) -> (r: Result<SelectColor, Error>)
    ensures
        outcome(r) == optional_color(j@, key@),
{
    match read_optional_str(j, key) {
        Err(e) => Err(e),
        Ok(None) => Ok(SelectColor::Default),
        Ok(Some(name)) => match SelectColor::parse(name.as_str()) {
            Some(color) => Ok(color),
            None => Err(Error::InvalidEnumValue { field: key.to_owned(), received: name }),
        },
    }
}

impl Default for Select {
    /// An option without a name, in the default colour, which the service
    /// has given no identifier.
    fn default() -> (r: Select)
        ensures
            r@ == (SelectView { id: None, name: Seq::empty(), color: SelectColor::Default }),
    {
        Select { id: None, name: String::new(), color: SelectColor::Default }
    }
}

impl Select {
    /// The field table of an option.
    pub fn fields() -> (table: Vec<Field>)
        ensures
            table_of(table@) == select_fields(),
    {
        let mut table = no_lines();
        line(&mut table, "id", Visibility::ReadWrite, false);
        line(&mut table, "name", Visibility::ReadWrite, true);
        line(&mut table, "color", Visibility::ReadWrite, false);
        assert(table_of(table@) =~= select_fields());
        table
    }
}

/// Reading an option passes over what it does not know: a member under a key
/// that the field table has no line for, put anywhere among the members
/// of a document, changes nothing of what is read.
pub proof fn lemma_select_ignores_extra(
    members: Seq<(Seq<char>, JsonValue)>,
    at: int,
    extra: (Seq<char>, JsonValue),
)
    requires
        0 <= at <= members.len(),
        !declares(select_fields(), extra.0),
    ensures
        decode_select(JsonValue::Object(members.insert(at, extra))) == decode_select(
            JsonValue::Object(members),
        ),
{
    lemma_extra_member_agrees(select_fields(), members, at, extra);
    lemma_select_reads_declared(
        JsonValue::Object(members.insert(at, extra)),
        JsonValue::Object(members),
    );
}

/// A document without a name is refused as an option for the missing
/// name, where its identifier can be read.
pub proof fn lemma_select_missing_field(j: JsonValue)
    requires
        optional_str(j, "id"@) is Ok,
        j.field("name"@) is None,
    ensures
        decode_select(j) == Err::<SelectView, ErrorView>(
            ErrorView::MissingField { field: "name"@ },
        ),
{
}

/// A document that is read as an option and written again reads as the
/// same option.
pub proof fn lemma_select_reserialize(j: JsonValue)
    requires
        decode_select(j) is Ok,
    ensures
        decode_select(encode_select(decode_select(j)->Ok_0)) == decode_select(j),
{
    lemma_select_round_trip(decode_select(j)->Ok_0);
}

/// A name names a colour exactly where it is the name of one: for every
/// other text the palette is not searched in vain.
pub proof fn lemma_color_named_exact(name: Seq<char>)
    ensures
        color_named(name) is Some <==> exists|color: SelectColor| color_name(color) == name,
{
    if color_named(name) is Some {
        assert(color_name(color_named(name)->Some_0) == name);
    } else {
        assert forall|color: SelectColor| color_name(color) != name by {}
    }
}

/// A field that the table marks as required is asked for: a document that
/// lacks one is refused as an option.
pub proof fn lemma_select_asks_required(j: JsonValue, i: int)
    requires
        0 <= i < select_fields().len(),
        select_fields()[i].required,
        j.field(select_fields()[i].key) is None,
    ensures
        decode_select(j) is Err,
{
    let table = select_fields();
    assert(table[0].key == "id"@ && table[1].key == "name"@ && table[2].key == "color"@);
}

} // verus!
