use crate::error::{outcome, Error, ErrorView};
use crate::field::{
    object, optional_bool, optional_object, optional_str, put, put_str, read_optional_bool,
    read_optional_object, read_optional_str, read_required_object, read_required_str, read_tag,
    required_object, required_str, tag,
};
use crate::json::{lemma_lookup_empty, lemma_lookup_push, members_of, values_of, Json, JsonValue};
use crate::others::color::{
    color_name, lemma_color_named_name, optional_color, read_optional_color, Color,
};
use crate::registry::{
    agree_on, declares, lemma_extra_member_agrees, line, no_lines, sends_only, table_of, Field,
    FieldSpec, Visibility,
};
use crate::text::same_text;
use vstd::prelude::*;

verus! {

/// How a span of text is presented. Each of the five flags is set or not
/// apart from the others.
#[derive(Clone, Copy, Debug, PartialEq, Eq, Structural)]
pub struct RichTextAnnotations {
    pub bold: bool,
    pub italic: bool,
    pub strikethrough: bool,
    pub underline: bool,
    pub code: bool,
    pub color: Color,
}

impl DeepView for RichTextAnnotations {
    type V = RichTextAnnotations;

    open spec fn deep_view(&self) -> RichTextAnnotations {
        *self
    }
}

impl View for RichTextAnnotations {
    type V = RichTextAnnotations;

    open spec fn view(&self) -> RichTextAnnotations {
        *self
    }
}

/// Text without any presentation: no flag set, the default colour.
pub open spec fn plain() -> RichTextAnnotations {
    RichTextAnnotations {
        bold: false,
        italic: false,
        strikethrough: false,
        underline: false,
        code: false,
        color: Color::Default,
    }
}

impl Default for RichTextAnnotations {
    fn default() -> (r: RichTextAnnotations)
        ensures
            r == plain(),
    {
        RichTextAnnotations {
            bold: false,
            italic: false,
            strikethrough: false,
            underline: false,
            code: false,
            color: Color::Default,
        }
    }
}

/// What a document decodes to as annotations. A flag that is absent is not
/// set.
pub open spec fn decode_annotations(j: JsonValue) -> Result<RichTextAnnotations, ErrorView> {
    match optional_bool(j, "bold"@) {
        Err(e) => Err(e),
        Ok(bold) =>         match optional_bool(j, "italic"@) {
            Err(e) => Err(e),
            Ok(italic) =>             match optional_bool(j, "strikethrough"@) {
                Err(e) => Err(e),
                Ok(strikethrough) =>                 match optional_bool(j, "underline"@) {
                    Err(e) => Err(e),
                    Ok(underline) =>                     match optional_bool(j, "code"@) {
                        Err(e) => Err(e),
                        Ok(code) =>match optional_color(j, "color"@) {
                            Err(e) => Err(e),
                            Ok(color) => Ok(
                                RichTextAnnotations { bold, italic, strikethrough, underline, code, color },
                            ),
                        },
                    },
                },
            },
        },
    }
}

/// The document that annotations are written as.
pub open spec fn encode_annotations(a: RichTextAnnotations) -> JsonValue {
    JsonValue::Object(
        Seq::empty().push(("bold"@, JsonValue::Bool(a.bold))).push(
            ("italic"@, JsonValue::Bool(a.italic)),
        ).push(("strikethrough"@, JsonValue::Bool(a.strikethrough))).push(
            ("underline"@, JsonValue::Bool(a.underline)),
        ).push(("code"@, JsonValue::Bool(a.code))).push(
            ("color"@, JsonValue::Str(color_name(a.color))),
        ),
    )
}

/// The keys of annotations differ from each other.
pub proof fn lemma_annotation_keys()
    ensures
        "bold"@ != "italic"@,
        "bold"@ != "strikethrough"@,
        "bold"@ != "underline"@,
        "bold"@ != "code"@,
        "bold"@ != "color"@,
        "italic"@ != "strikethrough"@,
        "italic"@ != "underline"@,
        "italic"@ != "code"@,
        "italic"@ != "color"@,
        "strikethrough"@ != "underline"@,
        "strikethrough"@ != "code"@,
        "strikethrough"@ != "color"@,
        "underline"@ != "code"@,
        "underline"@ != "color"@,
        "code"@ != "color"@,
{
    reveal_strlit("bold");
    reveal_strlit("italic");
    reveal_strlit("strikethrough");
    reveal_strlit("underline");
    reveal_strlit("code");
    reveal_strlit("color");
    assert("bold"@.len() == 4 && "bold"@[0] == 'b');
    assert("italic"@.len() == 6);
    assert("strikethrough"@.len() == 13);
    assert("underline"@.len() == 9);
    assert("code"@.len() == 4 && "code"@[0] == 'c');
    assert("color"@.len() == 5);
}

/// Annotations that are written and read again are the same annotations.
pub proof fn lemma_annotations_round_trip(a: RichTextAnnotations)
    ensures
        decode_annotations(encode_annotations(a)) == Ok::<RichTextAnnotations, ErrorView>(a),
{
    broadcast use {lemma_lookup_push, lemma_lookup_empty};

    lemma_annotation_keys();
    lemma_color_named_name(a.color);
}

impl RichTextAnnotations {
    /// Reads annotations from a document.
    pub fn from_json(j: &Json) -> (r: Result<RichTextAnnotations, Error>)
        ensures
            outcome(r) == decode_annotations(j@),
    {
        let bold = read_optional_bool(j, "bold")?;
        let italic = read_optional_bool(j, "italic")?;
        let strikethrough = read_optional_bool(j, "strikethrough")?;
        let underline = read_optional_bool(j, "underline")?;
        let code = read_optional_bool(j, "code")?;
        let color = read_optional_color(j, "color")?;
        Ok(RichTextAnnotations { bold, italic, strikethrough, underline, code, color })
    }

    /// Writes the annotations as a document.
    pub fn to_json(&self) -> (r: Json)
        ensures
            r@ == encode_annotations(*self),
    {
        let mut members: Vec<(String, Json)> = Vec::new();
        assert(members_of(members@) =~= Seq::empty());
        put(&mut members, "bold", Json::Bool(self.bold));
        put(&mut members, "italic", Json::Bool(self.italic));
        put(&mut members, "strikethrough", Json::Bool(self.strikethrough));
        put(&mut members, "underline", Json::Bool(self.underline));
        put(&mut members, "code", Json::Bool(self.code));
        put_str(&mut members, "color", self.color.name());
        object(members)
    }
}

/// One span of a run of text.
#[derive(Clone, Debug, PartialEq, Eq)]
pub struct RichText {
    /// The characters of the span.
    pub content: String,
    /// The address that the span links to, if it is a link.
    pub link: Option<String>,
    pub annotations: RichTextAnnotations,
    /// The span without its presentation, as the service derives it. It is
    /// read and never sent.
    pub plain_text: Option<String>,
}

/// The mathematical value of a [`RichText`].
pub struct RichTextView {
    pub content: Seq<char>,
    pub link: Option<Seq<char>>,
    pub annotations: RichTextAnnotations,
    pub plain_text: Option<Seq<char>>,
}

impl RichTextView {
    /// The span as it is sent: without what only the service fills in.
    pub open spec fn sent(self) -> RichTextView {
        RichTextView { plain_text: None, ..self }
    }
}

impl DeepView for RichText {
    type V = RichTextView;

    open spec fn deep_view(&self) -> RichTextView {
        RichTextView {
            content: self.content@,
            link: self.link.deep_view(),
            annotations: self.annotations,
            plain_text: self.plain_text.deep_view(),
        }
    }
}

impl View for RichText {
    type V = RichTextView;

    open spec fn view(&self) -> RichTextView {
        self.deep_view()
    }
}

/// The field table of a span.
pub open spec fn rich_text_fields() -> Seq<FieldSpec> {
    seq![
        FieldSpec { key: "type"@, visibility: Visibility::ReadWrite, required: true },
        FieldSpec { key: "text"@, visibility: Visibility::ReadWrite, required: true },
        FieldSpec { key: "annotations"@, visibility: Visibility::ReadWrite, required: false },
        FieldSpec { key: "plain_text"@, visibility: Visibility::ReadOnly, required: false },
    ]
}

/// The address under `link` in the payload of a span, if it has one.
pub open spec fn decode_link(text: JsonValue) -> Result<Option<Seq<char>>, ErrorView> {
    match optional_object(text, "link"@) {
        Err(e) => Err(e),
        Ok(None) => Ok(None),
        Ok(Some(link)) => match required_str(link, "url"@) {
            Err(e) => Err(e),
            Ok(url) => Ok(Some(url)),
        },
    }
}

/// The annotations under `annotations`; those of plain text where the key
/// is absent.
pub open spec fn decode_optional_annotations(j: JsonValue) -> Result<
    RichTextAnnotations,
    ErrorView,
> {
    match optional_object(j, "annotations"@) {
        Err(e) => Err(e),
        Ok(None) => Ok(plain()),
        Ok(Some(a)) => decode_annotations(a),
    }
}

/// What a document decodes to as a span.
pub open spec fn decode_rich_text(j: JsonValue) -> Result<RichTextView, ErrorView> {
    match tag(j, "type"@) {
        None => Err(ErrorView::UnknownVariant { family: "rich_text"@, discriminator: None }),
        Some(kind) => if kind != "text"@ {
            Err(ErrorView::UnknownVariant { family: "rich_text"@, discriminator: Some(kind) })
        } else {
            match required_object(j, "text"@) {
                Err(e) => Err(e),
                Ok(text) => match required_str(text, "content"@) {
                    Err(e) => Err(e),
                    Ok(content) => match decode_link(text) {
                        Err(e) => Err(e),
                        Ok(link) => match decode_optional_annotations(j) {
                            Err(e) => Err(e),
                            Ok(annotations) => match optional_str(j, "plain_text"@) {
                                Err(e) => Err(e),
                                Ok(plain_text) => Ok(
                                    RichTextView { content, link, annotations, plain_text },
                                ),
                            },
                        },
                    },
                },
            }
        },
    }
}

/// The members of a span's payload: the content, and the link where there
/// is one.
pub open spec fn encode_text(content: Seq<char>, link: Option<Seq<char>>) -> JsonValue {
    let members = Seq::empty().push(("content"@, JsonValue::Str(content)));
    JsonValue::Object(
        match link {
            Some(url) => members.push(
                ("link"@, JsonValue::Object(Seq::empty().push(("url"@, JsonValue::Str(url))))),
            ),
            None => members,
        },
    )
}

/// The document that a span is written as.
pub open spec fn encode_rich_text(r: RichTextView) -> JsonValue {
    JsonValue::Object(
        Seq::empty().push(("type"@, JsonValue::Str("text"@))).push(
            ("text"@, encode_text(r.content, r.link)),
        ).push(("annotations"@, encode_annotations(r.annotations))),
    )
}

/// The keys of a span, and those of its payload, differ from each other.
pub proof fn lemma_rich_text_keys()
    ensures
        "type"@ != "text"@,
        "type"@ != "annotations"@,
        "type"@ != "plain_text"@,
        "text"@ != "annotations"@,
        "text"@ != "plain_text"@,
        "annotations"@ != "plain_text"@,
        "content"@ != "link"@,
{
    reveal_strlit("type");
    reveal_strlit("text");
    reveal_strlit("annotations");
    reveal_strlit("plain_text");
    reveal_strlit("content");
    reveal_strlit("link");
    assert("type"@.len() == 4 && "type"@[0] == 't' && "type"@[1] == 'y');
    assert("text"@.len() == 4 && "text"@[0] == 't' && "text"@[1] == 'e');
    assert("annotations"@.len() == 11);
    assert("plain_text"@.len() == 10);
    assert("content"@.len() == 7);
    assert("link"@.len() == 4 && "link"@[0] == 'l');
}

/// A span that is written and read again is the span that was sent.
pub proof fn lemma_rich_text_round_trip(r: RichTextView)
    ensures
        decode_rich_text(encode_rich_text(r)) == Ok::<RichTextView, ErrorView>(r.sent()),
{
    broadcast use {lemma_lookup_push, lemma_lookup_empty};

    lemma_rich_text_keys();
    lemma_annotations_round_trip(r.annotations);
}

/// A span is written under the discriminator of its kind.
pub proof fn lemma_rich_text_tag(r: RichTextView)
    ensures
        tag(encode_rich_text(r), "type"@) == Some("text"@),
{
    broadcast use {lemma_lookup_push, lemma_lookup_empty};

    lemma_rich_text_keys();
}

/// Decoding a span reads the keys of its field table and no others: two
/// documents that agree on them decode alike.
pub proof fn lemma_rich_text_reads_declared(a: JsonValue, b: JsonValue)
    requires
        agree_on(rich_text_fields(), a, b),
    ensures
        decode_rich_text(a) == decode_rich_text(b),
{
    let table = rich_text_fields();
    assert(table[0].key == "type"@ && table[1].key == "text"@ && table[2].key
        == "annotations"@ && table[3].key == "plain_text"@);
}

/// A span is written with keys that its field table lets be sent, and so
/// without the text that the service derives.
pub proof fn lemma_rich_text_sends_declared(r: RichTextView)
    ensures
        sends_only(rich_text_fields(), encode_rich_text(r)),
        encode_rich_text(r).field("plain_text"@) is None,
{
    broadcast use {lemma_lookup_push, lemma_lookup_empty};

    lemma_rich_text_keys();
    let table = rich_text_fields();
    assert(table[0].key == "type"@ && table[1].key == "text"@ && table[2].key
        == "annotations"@);
}

/// What the items of an array decode to as a run of spans. The first item
/// that is refused decides the error.
pub open spec fn decode_rich_texts(items: Seq<JsonValue>) -> Result<Seq<RichTextView>, ErrorView>
    decreases items.len(),
{
    if items.len() == 0 {
        Ok(Seq::empty())
    } else {
        match decode_rich_texts(items.drop_last()) {
            Err(e) => Err(e),
            Ok(front) => match decode_rich_text(items.last()) {
                Err(e) => Err(e),
                Ok(span) => Ok(front.push(span)),
            },
        }
    }
}

/// The items that a run of spans is written as.
pub open spec fn encode_rich_texts(run: Seq<RichTextView>) -> Seq<JsonValue> {
    Seq::new(run.len(), |i: int| encode_rich_text(run[i]))
}

/// A run of spans as it is sent.
pub open spec fn sent_rich_texts(run: Seq<RichTextView>) -> Seq<RichTextView> {
    Seq::new(run.len(), |i: int| run[i].sent())
}

/// Once an item has been refused, the items behind it change nothing.
pub proof fn lemma_rich_texts_refused(items: Seq<JsonValue>, upto: int)
    requires
        0 <= upto <= items.len(),
        decode_rich_texts(items.take(upto)) is Err,
    ensures
        decode_rich_texts(items) == decode_rich_texts(items.take(upto)),
    decreases items.len() - upto,
{
    if upto < items.len() {
        assert(items.take(upto + 1).drop_last() =~= items.take(upto));
        lemma_rich_texts_refused(items, upto + 1);
    } else {
        assert(items.take(upto) =~= items);
    }
}

/// A run of spans that is written and read again is the run that was sent:
/// as many spans, in the same order.
pub proof fn lemma_rich_texts_round_trip(run: Seq<RichTextView>)
    ensures
        decode_rich_texts(encode_rich_texts(run)) == Ok::<Seq<RichTextView>, ErrorView>(
            sent_rich_texts(run),
        ),
    decreases run.len(),
{
    let items = encode_rich_texts(run);
    if run.len() == 0 {
        assert(sent_rich_texts(run) =~= Seq::empty());
    } else {
        lemma_rich_texts_round_trip(run.drop_last());
        lemma_rich_text_round_trip(run.last());
        assert(items.drop_last() =~= encode_rich_texts(run.drop_last()));
        assert(sent_rich_texts(run) =~= sent_rich_texts(run.drop_last()).push(run.last().sent()));
    }
}

/// The span that holds `content` as plain text.
pub open spec fn plain_span(content: Seq<char>) -> RichTextView {
    RichTextView { content, link: None, annotations: plain(), plain_text: None }
}

impl From<&str> for RichText {
    /// A span of plain text.
    fn from(content: &str) -> (r: RichText)
        ensures
            r@ == plain_span(content@),
    {
        RichText {
            content: content.to_owned(),
            link: None,
            annotations: RichTextAnnotations::default(),
            plain_text: None,
        }
    }
}

impl vstd::std_specs::convert::FromSpecImpl<&str> for RichText {
    open spec fn obeys_from_spec() -> bool {
        false
    }

    open spec fn from_spec(content: &str) -> RichText {
        choose|r: RichText| r@ == plain_span(content@)
    }
}

impl RichText {
    /// Reads a span from a document.
    pub fn from_json(j: &Json) -> (r: Result<RichText, Error>)
        ensures
            outcome(r) == decode_rich_text(j@),
    {
        match read_tag(j, "type") {
            None => {
                return Err(
                    Error::UnknownVariant { family: "rich_text".to_owned(), discriminator: None },
                );
            },
            Some(kind) => {
                if !same_text(kind.as_str(), "text") {
                    return Err(Error::UnknownVariant {
                        family: "rich_text".to_owned(),
                        discriminator: Some(kind),
                    });
                }
            },
        }
        let text = read_required_object(j, "text")?;
        let content = read_required_str(text, "content")?;
        let link = match read_optional_object(text, "link")? {
            None => None,
            Some(link) => Some(read_required_str(link, "url")?),
        };
        let annotations = match read_optional_object(j, "annotations")? {
            None => RichTextAnnotations::default(),
            Some(a) => RichTextAnnotations::from_json(a)?,
        };
        let plain_text = read_optional_str(j, "plain_text")?;
        Ok(RichText { content, link, annotations, plain_text })
    }

    /// Writes the span as a document, without the text that the service
    /// derives.
    pub fn to_json(&self) -> (r: Json)
        ensures
            r@ == encode_rich_text(self@),
    {
        let mut text: Vec<(String, Json)> = Vec::new();
        assert(members_of(text@) =~= Seq::empty());
        put_str(&mut text, "content", self.content.as_str());
        match &self.link {
            Some(url) => {
                let mut link: Vec<(String, Json)> = Vec::new();
                assert(members_of(link@) =~= Seq::empty());
                put_str(&mut link, "url", url.as_str());
                put(&mut text, "link", object(link));
            },
            None => {},
        }
        let mut members: Vec<(String, Json)> = Vec::new();
        assert(members_of(members@) =~= Seq::empty());
        put_str(&mut members, "type", "text");
        put(&mut members, "text", object(text));
        put(&mut members, "annotations", self.annotations.to_json());
        object(members)
    }

    /// Reads a run of spans from the items of an array.
    pub fn list_from_json(items: &Vec<Json>) -> (r: Result<Vec<RichText>, Error>)
        ensures
            outcome(r) == decode_rich_texts(values_of(items@)),
    {
        let ghost values = values_of(items@);
        let mut run: Vec<RichText> = Vec::new();
        let mut i: usize = 0;
        assert(values.take(0) =~= Seq::empty());
        assert(run.deep_view() =~= Seq::empty());
        while i < items.len()
            invariant
                i <= items.len(),
                values == values_of(items@),
                decode_rich_texts(values.take(i as int)) == Ok::<Seq<RichTextView>, ErrorView>(
                    run.deep_view(),
                ),
            decreases items.len() - i,
        {
            assert(values.take(i + 1).drop_last() =~= values.take(i as int));
            assert(values.take(i + 1).last() == items@[i as int]@);
            match RichText::from_json(&items[i]) {
                Err(e) => {
                    proof {
                        lemma_rich_texts_refused(values, i + 1);
                    }
                    return Err(e);
                },
                Ok(span) => {
                    let ghost before = run.deep_view();
                    run.push(span);
                    assert(run.deep_view() =~= before.push(span@));
                },
            }
            i += 1;
        }
        assert(values.take(i as int) =~= values);
        Ok(run)
    }

    /// Writes a run of spans as the items of an array.
    pub fn list_to_json(run: &Vec<RichText>) -> (r: Vec<Json>)
        ensures
            values_of(r@) == encode_rich_texts(run.deep_view()),
    {
        let mut items: Vec<Json> = Vec::new();
        let mut i: usize = 0;
        while i < run.len()
            invariant
                i <= run.len(),
                items.len() == i,
                forall|k: int| 0 <= k < i ==> (#[trigger] items@[k])@ == encode_rich_text(run@[k]@),
            decreases run.len() - i,
        {
            items.push(run[i].to_json());
            i += 1;
        }
        assert(values_of(items@) =~= encode_rich_texts(run.deep_view()));
        items
    }
}

impl Default for RichText {
    /// A span of plain text without characters.
    fn default() -> (r: RichText)
        ensures
            r@ == plain_span(Seq::empty()),
    {
        RichText {
            content: String::new(),
            link: None,
            annotations: RichTextAnnotations::default(),
            plain_text: None,
        }
    }
}

impl RichText {
    /// The field table of a span.
    pub fn fields() -> (table: Vec<Field>)
        ensures
            table_of(table@) == rich_text_fields(),
    {
        let mut table = no_lines();
        line(&mut table, "type", Visibility::ReadWrite, true);
        line(&mut table, "text", Visibility::ReadWrite, true);
        line(&mut table, "annotations", Visibility::ReadWrite, false);
        line(&mut table, "plain_text", Visibility::ReadOnly, false);
        assert(table_of(table@) =~= rich_text_fields());
        table
    }
}

/// Reading a span passes over what it does not know: a member under a key
/// that the field table has no line for, put anywhere among the members
/// of a document, changes nothing of what is read.
pub proof fn lemma_rich_text_ignores_extra(
    members: Seq<(Seq<char>, JsonValue)>,
    at: int,
    extra: (Seq<char>, JsonValue),
)
    requires
        0 <= at <= members.len(),
        !declares(rich_text_fields(), extra.0),
    ensures
        decode_rich_text(JsonValue::Object(members.insert(at, extra))) == decode_rich_text(
            JsonValue::Object(members),
        ),
{
    lemma_extra_member_agrees(rich_text_fields(), members, at, extra);
    lemma_rich_text_reads_declared(
        JsonValue::Object(members.insert(at, extra)),
        JsonValue::Object(members),
    );
}

/// A document of the kind of a span that lacks its payload, or whose
/// payload lacks its content, is refused for what is missing.
pub proof fn lemma_rich_text_missing_field(j: JsonValue)
    requires
        tag(j, "type"@) == Some("text"@),
    ensures
        j.field("text"@) is None ==> decode_rich_text(j) == Err::<RichTextView, ErrorView>(
            ErrorView::MissingField { field: "text"@ },
        ),
        required_object(j, "text"@) is Ok && required_object(j, "text"@)->Ok_0.field("content"@)
            is None ==> decode_rich_text(j) == Err::<RichTextView, ErrorView>(
            ErrorView::MissingField { field: "content"@ },
        ),
{
}

/// A document that is read as a span and written again reads as the span
/// that was read, without what only the service fills in.
pub proof fn lemma_rich_text_reserialize(j: JsonValue)
    requires
        decode_rich_text(j) is Ok,
    ensures
        decode_rich_text(encode_rich_text(decode_rich_text(j)->Ok_0)) == Ok::<
            RichTextView,
            ErrorView,
        >(decode_rich_text(j)->Ok_0.sent()),
{
    lemma_rich_text_round_trip(decode_rich_text(j)->Ok_0);
}

/// A field that the table marks as required is asked for: a document that
/// lacks one is refused as a span.
pub proof fn lemma_rich_text_asks_required(j: JsonValue, i: int)
    requires
        0 <= i < rich_text_fields().len(),
        rich_text_fields()[i].required,
        j.field(rich_text_fields()[i].key) is None,
    ensures
        decode_rich_text(j) is Err,
{
    let table = rich_text_fields();
    assert(table[0].key == "type"@
        && table[1].key == "text"@
        && table[2].key == "annotations"@
        && table[3].key == "plain_text"@);
}

impl RichText {
    /// Sets the flag `bold`, and leaves the other flags as they are.
    pub fn bold(self) -> (r: RichText)
        ensures
            r@ == (RichTextView {
                annotations: RichTextAnnotations { bold: true, ..self@.annotations },
                ..self@
            }),
    {
        RichText {
            content: self.content,
            link: self.link,
            annotations: RichTextAnnotations { bold: true, ..self.annotations },
            plain_text: self.plain_text,
        }
    }

    /// Sets the flag `italic`, and leaves the other flags as they are.
    pub fn italic(self) -> (r: RichText)
        ensures
            r@ == (RichTextView {
                annotations: RichTextAnnotations { italic: true, ..self@.annotations },
                ..self@
            }),
    {
        RichText {
            content: self.content,
            link: self.link,
            annotations: RichTextAnnotations { italic: true, ..self.annotations },
            plain_text: self.plain_text,
        }
    }

    /// Sets the flag `strikethrough`, and leaves the other flags as they are.
    pub fn strikethrough(self) -> (r: RichText)
        ensures
            r@ == (RichTextView {
                annotations: RichTextAnnotations { strikethrough: true, ..self@.annotations },
                ..self@
            }),
    {
        RichText {
            content: self.content,
            link: self.link,
            annotations: RichTextAnnotations { strikethrough: true, ..self.annotations },
            plain_text: self.plain_text,
        }
    }

    /// Sets the flag `underline`, and leaves the other flags as they are.
    pub fn underline(self) -> (r: RichText)
        ensures
            r@ == (RichTextView {
                annotations: RichTextAnnotations { underline: true, ..self@.annotations },
                ..self@
            }),
    {
        RichText {
            content: self.content,
            link: self.link,
            annotations: RichTextAnnotations { underline: true, ..self.annotations },
            plain_text: self.plain_text,
        }
    }

    /// Sets the flag `code`, and leaves the other flags as they are.
    pub fn code(self) -> (r: RichText)
        ensures
            r@ == (RichTextView {
                annotations: RichTextAnnotations { code: true, ..self@.annotations },
                ..self@
            }),
    {
        RichText {
            content: self.content,
            link: self.link,
            annotations: RichTextAnnotations { code: true, ..self.annotations },
            plain_text: self.plain_text,
        }
    }

    /// Sets the colour, and leaves the flags as they are.
    pub fn color(self, color: Color) -> (r: RichText)
        ensures
            r@ == (RichTextView {
                annotations: RichTextAnnotations { color, ..self@.annotations },
                ..self@
            }),
    {
        RichText {
            content: self.content,
            link: self.link,
            annotations: RichTextAnnotations { color, ..self.annotations },
            plain_text: self.plain_text,
        }
    }

    /// Makes the span a link to `url`.
    pub fn link(self, url: &str) -> (r: RichText)
        ensures
            r@ == (RichTextView { link: Some(url@), ..self@ }),
    {
        RichText {
            content: self.content,
            link: Some(url.to_owned()),
            annotations: self.annotations,
            plain_text: self.plain_text,
        }
    }
}

/// What is written of a span does not depend on what only the service
/// fills in.
pub proof fn lemma_rich_text_elides(r: RichTextView)
    ensures
        encode_rich_text(r) == encode_rich_text(r.sent()),
{
}

/// A document whose discriminator is absent, or is not that of a span of
/// text, is refused as such, whatever else it holds.
pub proof fn lemma_rich_text_unknown(j: JsonValue)
    requires
        tag(j, "type"@) != Some("text"@),
    ensures
        decode_rich_text(j) == Err::<RichTextView, ErrorView>(
            ErrorView::UnknownVariant { family: "rich_text"@, discriminator: tag(j, "type"@) },
        ),
{
}

} // verus!
