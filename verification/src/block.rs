use crate::block::paragraph::{
    decode_paragraph_block, encode_paragraph_block, lemma_paragraph_block_elides,
    lemma_paragraph_block_round_trip, ParagraphBlock, ParagraphBlockView,
};
use crate::block::pdf::{decode_pdf_block, lemma_pdf_block_round_trip, PdfBlock, PdfBlockView};
use crate::error::{outcome, Error, ErrorView};
use crate::field::{object, put, put_str, read_required_object, read_tag, required_object, tag};
use crate::json::{lemma_lookup_empty, lemma_lookup_push, members_of, Json, JsonValue};
use crate::others::file::{encode_file, lemma_file_elides};
use crate::registry::{
    agree_on, declares, lemma_extra_member_agrees, line, no_lines, sends_only, table_of, Field,
    FieldSpec, Visibility,
};
use crate::text::same_text;
use vstd::prelude::*;

pub mod paragraph;
pub mod pdf;

verus! {

/// The family of blocks. Exactly one variant is active; the discriminator
/// that a block is written with is derived from it, and is no field that
/// could be set apart from it.
#[derive(Clone, Debug, PartialEq, Eq)]
pub enum BlockType {
    Paragraph(ParagraphBlock),
    Pdf(PdfBlock),
}

/// The mathematical value of a [`BlockType`].
pub enum BlockTypeView {
    Paragraph(ParagraphBlockView),
    Pdf(PdfBlockView),
}

impl DeepView for BlockType {
    type V = BlockTypeView;

    open spec fn deep_view(&self) -> BlockTypeView {
        match self {
            BlockType::Paragraph(p) => BlockTypeView::Paragraph(p@),
            BlockType::Pdf(p) => BlockTypeView::Pdf(p@),
        }
    }
}

impl View for BlockType {
    type V = BlockTypeView;

    open spec fn view(&self) -> BlockTypeView {
        self.deep_view()
    }
}

impl BlockTypeView {
    /// The discriminator of the active variant.
    pub open spec fn discriminator(self) -> Seq<char> {
        match self {
            BlockTypeView::Paragraph(_) => "paragraph"@,
            BlockTypeView::Pdf(_) => "pdf"@,
        }
    }

    /// The block as it is sent.
    pub open spec fn sent(self) -> BlockTypeView {
        match self {
            BlockTypeView::Paragraph(p) => BlockTypeView::Paragraph(p.sent()),
            BlockTypeView::Pdf(p) => BlockTypeView::Pdf(p.sent()),
        }
    }
}

/// Whether `kind` is the discriminator of a variant of the family.
pub open spec fn names_block(kind: Seq<char>) -> bool {
    kind == "paragraph"@ || kind == "pdf"@
}

/// The field table of a block. Of the payloads, a document holds the one
/// that its discriminator names.
pub open spec fn block_fields() -> Seq<FieldSpec> {
    seq![
        FieldSpec { key: "type"@, visibility: Visibility::ReadWrite, required: true },
        FieldSpec { key: "paragraph"@, visibility: Visibility::ReadWrite, required: false },
        FieldSpec { key: "pdf"@, visibility: Visibility::ReadWrite, required: false },
    ]
}

/// What a document decodes to as a block. The discriminator under `type`
/// picks the variant, and the payload is read under the same word.
pub open spec fn decode_block(j: JsonValue) -> Result<BlockTypeView, ErrorView> {
    match tag(j, "type"@) {
        None => Err(ErrorView::UnknownVariant { family: "block"@, discriminator: None }),
        Some(kind) => if kind == "paragraph"@ {
            match required_object(j, "paragraph"@) {
                Err(e) => Err(e),
                Ok(payload) => match decode_paragraph_block(payload) {
                    Err(e) => Err(e),
                    Ok(p) => Ok(BlockTypeView::Paragraph(p)),
                },
            }
        } else if kind == "pdf"@ {
            match decode_pdf_block(j) {
                Err(e) => Err(e),
                Ok(p) => Ok(BlockTypeView::Pdf(p)),
            }
        } else {
            Err(ErrorView::UnknownVariant { family: "block"@, discriminator: Some(kind) })
        },
    }
}

/// The document that a block is written as: the discriminator of the
/// active variant, and the payload under the same word.
pub open spec fn encode_block(b: BlockTypeView) -> JsonValue {
    match b {
        BlockTypeView::Paragraph(p) => JsonValue::Object(
            Seq::empty().push(("type"@, JsonValue::Str("paragraph"@))).push(
                ("paragraph"@, encode_paragraph_block(p)),
            ),
        ),
        BlockTypeView::Pdf(p) => JsonValue::Object(
            Seq::empty().push(("type"@, JsonValue::Str("pdf"@))).push(("pdf"@, encode_file(p.pdf))),
        ),
    }
}

/// The keys of a block differ from each other.
pub proof fn lemma_block_keys()
    ensures
        "type"@ != "paragraph"@,
        "type"@ != "pdf"@,
        "paragraph"@ != "pdf"@,
{
    reveal_strlit("type");
    reveal_strlit("paragraph");
    reveal_strlit("pdf");
    assert("type"@.len() == 4);
    assert("paragraph"@.len() == 9);
    assert("pdf"@.len() == 3);
}

/// A block is written under the discriminator of its active variant, with
/// its payload under the same word: no block is written under the
/// discriminator of another variant.
pub proof fn lemma_block_tag(b: BlockTypeView)
    ensures
        tag(encode_block(b), "type"@) == Some(b.discriminator()),
        encode_block(b).field(b.discriminator()) is Some,
        names_block(b.discriminator()),
{
    broadcast use {lemma_lookup_push, lemma_lookup_empty};

    lemma_block_keys();
}

/// A block that is read holds the variant that the document's
/// discriminator names.
pub proof fn lemma_block_decoded_tag(j: JsonValue)
    requires
        decode_block(j) is Ok,
    ensures
        tag(j, "type"@) == Some(decode_block(j)->Ok_0.discriminator()),
{
}

/// A document whose discriminator is absent, or names no variant of the
/// family, is refused as such, whatever else it holds.
pub proof fn lemma_block_unknown(j: JsonValue)
    requires
        tag(j, "type"@) is None || !names_block(tag(j, "type"@)->Some_0),
    ensures
        decode_block(j) == Err::<BlockTypeView, ErrorView>(
            ErrorView::UnknownVariant { family: "block"@, discriminator: tag(j, "type"@) },
        ),
{
}

/// A block that is written and read again is the block that was sent.
pub proof fn lemma_block_round_trip(b: BlockTypeView)
    ensures
        decode_block(encode_block(b)) == Ok::<BlockTypeView, ErrorView>(b.sent()),
{
    broadcast use {lemma_lookup_push, lemma_lookup_empty};

    lemma_block_keys();
    match b {
        BlockTypeView::Paragraph(p) => lemma_paragraph_block_round_trip(p),
        BlockTypeView::Pdf(p) => lemma_pdf_block_round_trip(p),
    }
}

/// What is written of a block does not depend on what only the service
/// fills in.
pub proof fn lemma_block_elides(b: BlockTypeView)
    ensures
        encode_block(b) == encode_block(b.sent()),
{
    match b {
        BlockTypeView::Paragraph(p) => lemma_paragraph_block_elides(p),
        BlockTypeView::Pdf(p) => lemma_file_elides(p.pdf),
    }
}

/// Decoding a block reads the keys of its field table and no others: two
/// documents that agree on them decode alike.
pub proof fn lemma_block_reads_declared(a: JsonValue, b: JsonValue)
    requires
        agree_on(block_fields(), a, b),
    ensures
        decode_block(a) == decode_block(b),
{
    let table = block_fields();
    assert(table[0].key == "type"@ && table[1].key == "paragraph"@ && table[2].key == "pdf"@);
}

/// A block is written with keys of its field table only.
pub proof fn lemma_block_sends_declared(b: BlockTypeView)
    ensures
        sends_only(block_fields(), encode_block(b)),
{
    broadcast use {lemma_lookup_push, lemma_lookup_empty};

    lemma_block_keys();
    let table = block_fields();
    assert(table[0].key == "type"@ && table[1].key == "paragraph"@ && table[2].key == "pdf"@);
}

impl BlockType {
    /// The discriminator of the active variant.
    pub fn discriminator(&self) -> (r: &'static str)
        ensures
            r@ == self@.discriminator(),
    {
        match self {
            BlockType::Paragraph(_) => "paragraph",
            BlockType::Pdf(_) => "pdf",
        }
    }

    /// Reads a block from a document.
    pub fn from_json(j: &Json) -> (r: Result<BlockType, Error>)
        ensures
            outcome(r) == decode_block(j@),
    {
        match read_tag(j, "type") {
            None => Err(Error::UnknownVariant { family: "block".to_owned(), discriminator: None }),
            Some(kind) => {
                if same_text(kind.as_str(), "paragraph") {
                    let payload = read_required_object(j, "paragraph")?;
                    Ok(BlockType::Paragraph(ParagraphBlock::from_json(payload)?))
                } else if same_text(kind.as_str(), "pdf") {
                    Ok(BlockType::Pdf(PdfBlock::from_json(j)?))
                } else {
                    Err(
                        Error::UnknownVariant {
                            family: "block".to_owned(),
                            discriminator: Some(kind),
                        },
                    )
                }
            },
        }
    }

    /// Writes the block as a document, without what only the service fills
    /// in.
    pub fn to_json(&self) -> (r: Json)
        ensures
            r@ == encode_block(self@),
    {
        let mut members: Vec<(String, Json)> = Vec::new();
        assert(members_of(members@) =~= Seq::empty());
        match self {
            BlockType::Paragraph(p) => {
                put_str(&mut members, "type", "paragraph");
                put(&mut members, "paragraph", p.to_json());
            },
            BlockType::Pdf(p) => {
                put_str(&mut members, "type", "pdf");
                put(&mut members, "pdf", p.pdf.to_json());
            },
        }
        object(members)
    }
}

impl BlockType {
    /// The field table of a block.
    pub fn fields() -> (table: Vec<Field>)
        ensures
            table_of(table@) == block_fields(),
    {
        let mut table = no_lines();
        line(&mut table, "type", Visibility::ReadWrite, true);
        line(&mut table, "paragraph", Visibility::ReadWrite, false);
        line(&mut table, "pdf", Visibility::ReadWrite, false);
        assert(table_of(table@) =~= block_fields());
        table
    }
}

/// Reading a block passes over what it does not know: a member under a key
/// that the field table has no line for, put anywhere among the members
/// of a document, changes nothing of what is read.
pub proof fn lemma_block_ignores_extra(
    members: Seq<(Seq<char>, JsonValue)>,
    at: int,
    extra: (Seq<char>, JsonValue),
)
    requires
        0 <= at <= members.len(),
        !declares(block_fields(), extra.0),
    ensures
        decode_block(JsonValue::Object(members.insert(at, extra))) == decode_block(
            JsonValue::Object(members),
        ),
{
    lemma_extra_member_agrees(block_fields(), members, at, extra);
    lemma_block_reads_declared(
        JsonValue::Object(members.insert(at, extra)),
        JsonValue::Object(members),
    );
}

/// A document that lacks the payload that its discriminator names is
/// refused for the missing payload.
pub proof fn lemma_block_missing_field(j: JsonValue)
    ensures
        tag(j, "type"@) == Some("paragraph"@) && j.field("paragraph"@) is None ==> decode_block(j)
            == Err::<BlockTypeView, ErrorView>(ErrorView::MissingField { field: "paragraph"@ }),
        tag(j, "type"@) == Some("pdf"@) && j.field("pdf"@) is None ==> decode_block(j) == Err::<
            BlockTypeView,
            ErrorView,
        >(ErrorView::MissingField { field: "pdf"@ }),
{
    lemma_block_keys();
}

/// A document that is read as a block and written again reads as the
/// block that was read, without what only the service fills in.
pub proof fn lemma_block_reserialize(j: JsonValue)
    requires
        decode_block(j) is Ok,
    ensures
        decode_block(encode_block(decode_block(j)->Ok_0)) == Ok::<BlockTypeView, ErrorView>(
            decode_block(j)->Ok_0.sent(),
        ),
{
    lemma_block_round_trip(decode_block(j)->Ok_0);
}

/// A field that the table marks as required is asked for: a document that
/// lacks one is refused as a block.
pub proof fn lemma_block_asks_required(j: JsonValue, i: int)
    requires
        0 <= i < block_fields().len(),
        block_fields()[i].required,
        j.field(block_fields()[i].key) is None,
    ensures
        decode_block(j) is Err,
{
    let table = block_fields();
    assert(table[0].key == "type"@ && table[1].key == "paragraph"@ && table[2].key == "pdf"@);
}

} // verus!
