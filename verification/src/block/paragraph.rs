use crate::block::BlockType;
use crate::error::{outcome, Error, ErrorView};
use crate::field::{array, object, put, put_str, read_required_array, required_array};
use crate::json::{lemma_lookup_empty, lemma_lookup_push, members_of, Json, JsonValue};
use crate::others::color::{
    color_name, lemma_color_named_name, optional_color, read_optional_color, Color,
};
use crate::others::rich_text::{
    decode_rich_texts, encode_rich_texts, lemma_rich_texts_round_trip, plain_span, sent_rich_texts,
    RichText, RichTextView,
};
use crate::registry::{
    agree_on, declares, lemma_extra_member_agrees, line, no_lines, sends_only, table_of, Field,
    FieldSpec, Visibility,
};
use vstd::prelude::*;

verus! {

/// A block that holds a paragraph of text.
#[derive(Clone, Debug, PartialEq, Eq)]
pub struct ParagraphBlock {
    /// The text, span by span, in the order in which it is shown.
    pub rich_text: Vec<RichText>,
    pub color: Color,
}

/// The mathematical value of a [`ParagraphBlock`].
pub struct ParagraphBlockView {
    pub rich_text: Seq<RichTextView>,
    pub color: Color,
}

impl DeepView for ParagraphBlock {
    type V = ParagraphBlockView;

    open spec fn deep_view(&self) -> ParagraphBlockView {
        ParagraphBlockView { rich_text: self.rich_text.deep_view(), color: self.color }
    }
}

impl View for ParagraphBlock {
    type V = ParagraphBlockView;

    open spec fn view(&self) -> ParagraphBlockView {
        self.deep_view()
    }
}

impl ParagraphBlockView {
    /// The block as it is sent: its text without what only the service
    /// fills in.
    pub open spec fn sent(self) -> ParagraphBlockView {
        ParagraphBlockView { rich_text: sent_rich_texts(self.rich_text), ..self }
    }
}

/// The field table of a paragraph.
pub open spec fn paragraph_block_fields() -> Seq<FieldSpec> {
    seq![
        FieldSpec { key: "rich_text"@, visibility: Visibility::ReadWrite, required: true },
        FieldSpec { key: "color"@, visibility: Visibility::ReadWrite, required: false },
    ]
}

/// What a document decodes to as a paragraph.
pub open spec fn decode_paragraph_block(j: JsonValue) -> Result<ParagraphBlockView, ErrorView> {
    match required_array(j, "rich_text"@) {
        Err(e) => Err(e),
        Ok(items) => match decode_rich_texts(items) {
            Err(e) => Err(e),
            Ok(rich_text) => match optional_color(j, "color"@) {
                Err(e) => Err(e),
                Ok(color) => Ok(ParagraphBlockView { rich_text, color }),
            },
        },
    }
}

/// The document that a paragraph is written as.
pub open spec fn encode_paragraph_block(b: ParagraphBlockView) -> JsonValue {
    JsonValue::Object(
        Seq::empty().push(("rich_text"@, JsonValue::Array(encode_rich_texts(b.rich_text)))).push(
            ("color"@, JsonValue::Str(color_name(b.color))),
        ),
    )
}

/// The keys of a paragraph differ from each other.
pub proof fn lemma_paragraph_block_keys()
    ensures
        "rich_text"@ != "color"@,
{
    reveal_strlit("rich_text");
    reveal_strlit("color");
    assert("rich_text"@.len() == 9);
    assert("color"@.len() == 5);
}

/// A paragraph that is written and read again is the paragraph that was
/// sent.
pub proof fn lemma_paragraph_block_round_trip(b: ParagraphBlockView)
    ensures
        decode_paragraph_block(encode_paragraph_block(b)) == Ok::<ParagraphBlockView, ErrorView>(
            b.sent(),
        ),
{
    broadcast use {lemma_lookup_push, lemma_lookup_empty};

    lemma_paragraph_block_keys();
    lemma_rich_texts_round_trip(b.rich_text);
    lemma_color_named_name(b.color);
}

/// What is written of a paragraph does not depend on what only the service
/// fills in.
pub proof fn lemma_paragraph_block_elides(b: ParagraphBlockView)
    ensures
        encode_paragraph_block(b) == encode_paragraph_block(b.sent()),
{
    assert(encode_rich_texts(b.rich_text) =~= encode_rich_texts(sent_rich_texts(b.rich_text)));
}

/// Decoding a paragraph reads the keys of its field table and no others:
/// two documents that agree on them decode alike.
pub proof fn lemma_paragraph_block_reads_declared(a: JsonValue, b: JsonValue)
    requires
        agree_on(paragraph_block_fields(), a, b),
    ensures
        decode_paragraph_block(a) == decode_paragraph_block(b),
{
    let table = paragraph_block_fields();
    assert(table[0].key == "rich_text"@ && table[1].key == "color"@);
}

/// A paragraph is written with keys of its field table only.
pub proof fn lemma_paragraph_block_sends_declared(b: ParagraphBlockView)
    ensures
        sends_only(paragraph_block_fields(), encode_paragraph_block(b)),
{
    broadcast use {lemma_lookup_push, lemma_lookup_empty};

    let table = paragraph_block_fields();
    assert(table[0].key == "rich_text"@ && table[1].key == "color"@);
}

impl From<&str> for ParagraphBlock {
    /// A paragraph of one span of plain text.
    fn from(content: &str) -> (r: ParagraphBlock)
        ensures
            r@ == (ParagraphBlockView {
                rich_text: seq![plain_span(content@)],
                color: Color::Default,
            }),
    {
        let mut rich_text: Vec<RichText> = Vec::new();
        rich_text.push(RichText::from(content));
        assert(rich_text.deep_view() =~= seq![plain_span(content@)]);
        ParagraphBlock { rich_text, color: Color::Default }
    }
}

impl vstd::std_specs::convert::FromSpecImpl<&str> for ParagraphBlock {
    open spec fn obeys_from_spec() -> bool {
        false
    }

    open spec fn from_spec(content: &str) -> ParagraphBlock {
        choose|b: ParagraphBlock|
            b@ == (ParagraphBlockView {
                rich_text: seq![plain_span(content@)],
                color: Color::Default,
            })
    }
}

impl ParagraphBlock {
    /// The block as one of the family of blocks.
    pub fn build(self) -> (r: BlockType)
        ensures
            r == BlockType::Paragraph(self),
    {
        BlockType::Paragraph(self)
    }

    /// A paragraph without text, in the default colour.
    pub fn new() -> (r: ParagraphBlock)
        ensures
            r@ == (ParagraphBlockView { rich_text: Seq::empty(), color: Color::Default }),
    {
        let rich_text: Vec<RichText> = Vec::new();
        assert(rich_text.deep_view() =~= Seq::empty());
        ParagraphBlock { rich_text, color: Color::Default }
    }

    /// Sets the text.
    pub fn rich_text(self, rich_text: Vec<RichText>) -> (r: ParagraphBlock)
        ensures
            r@ == (ParagraphBlockView { rich_text: rich_text.deep_view(), ..self@ }),
    {
        ParagraphBlock { rich_text, color: self.color }
    }

    /// Sets the colour.
    pub fn color(self, color: Color) -> (r: ParagraphBlock)
        ensures
            r@ == (ParagraphBlockView { color, ..self@ }),
    {
        ParagraphBlock { rich_text: self.rich_text, color }
    }

    /// Reads a paragraph from a document.
    pub fn from_json(j: &Json) -> (r: Result<ParagraphBlock, Error>)
        ensures
            outcome(r) == decode_paragraph_block(j@),
    {
        let items = read_required_array(j, "rich_text")?;
        let rich_text = RichText::list_from_json(items)?;
        let color = read_optional_color(j, "color")?;
        Ok(ParagraphBlock { rich_text, color })
    }

    /// Writes the paragraph as a document, without what only the service
    /// fills in.
    pub fn to_json(&self) -> (r: Json)
        ensures
            r@ == encode_paragraph_block(self@),
    {
        let mut members: Vec<(String, Json)> = Vec::new();
        assert(members_of(members@) =~= Seq::empty());
        put(&mut members, "rich_text", array(RichText::list_to_json(&self.rich_text)));
        put_str(&mut members, "color", self.color.name());
        object(members)
    }
}

impl Default for ParagraphBlock {
    /// A paragraph without text, in the default colour.
    fn default() -> (r: ParagraphBlock)
        ensures
            r@ == (ParagraphBlockView { rich_text: Seq::empty(), color: Color::Default }),
    {
        ParagraphBlock::new()
    }
}

impl ParagraphBlock {
    /// The field table of a paragraph.
    pub fn fields() -> (table: Vec<Field>)
        ensures
            table_of(table@) == paragraph_block_fields(),
    {
        let mut table = no_lines();
        line(&mut table, "rich_text", Visibility::ReadWrite, true);
        line(&mut table, "color", Visibility::ReadWrite, false);
        assert(table_of(table@) =~= paragraph_block_fields());
        table
    }
}

/// Reading a paragraph passes over what it does not know: a member under a key
/// that the field table has no line for, put anywhere among the members
/// of a document, changes nothing of what is read.
pub proof fn lemma_paragraph_block_ignores_extra(
    members: Seq<(Seq<char>, JsonValue)>,
    at: int,
    extra: (Seq<char>, JsonValue),
)
    requires
        0 <= at <= members.len(),
        !declares(paragraph_block_fields(), extra.0),
    ensures
        decode_paragraph_block(JsonValue::Object(members.insert(at, extra))) == decode_paragraph_block(
            JsonValue::Object(members),
        ),
{
    lemma_extra_member_agrees(paragraph_block_fields(), members, at, extra);
    lemma_paragraph_block_reads_declared(
        JsonValue::Object(members.insert(at, extra)),
        JsonValue::Object(members),
    );
}

/// A document without text is refused as a paragraph for the missing
/// text.
pub proof fn lemma_paragraph_block_missing_field(j: JsonValue)
    requires
        j.field("rich_text"@) is None,
    ensures
        decode_paragraph_block(j) == Err::<ParagraphBlockView, ErrorView>(
            ErrorView::MissingField { field: "rich_text"@ },
        ),
{
}

/// A document that is read as a paragraph and written again reads as the
/// paragraph that was read, without what only the service fills in.
pub proof fn lemma_paragraph_block_reserialize(j: JsonValue)
    requires
        decode_paragraph_block(j) is Ok,
    ensures
        decode_paragraph_block(encode_paragraph_block(decode_paragraph_block(j)->Ok_0)) == Ok::<
            ParagraphBlockView,
            ErrorView,
        >(decode_paragraph_block(j)->Ok_0.sent()),
{
    lemma_paragraph_block_round_trip(decode_paragraph_block(j)->Ok_0);
}

/// A field that the table marks as required is asked for: a document that
/// lacks one is refused as a paragraph.
pub proof fn lemma_paragraph_block_asks_required(j: JsonValue, i: int)
    requires
        0 <= i < paragraph_block_fields().len(),
        paragraph_block_fields()[i].required,
        j.field(paragraph_block_fields()[i].key) is None,
    ensures
        decode_paragraph_block(j) is Err,
{
    let table = paragraph_block_fields();
    assert(table[0].key == "rich_text"@ && table[1].key == "color"@);
}

} // verus!
