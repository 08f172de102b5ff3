use crate::block::BlockType;
use crate::error::{outcome, Error, ErrorView};
use crate::field::{object, put, read_required_object, required_object};
use crate::json::{lemma_lookup_empty, lemma_lookup_push, members_of, Json, JsonValue};
use crate::others::file::{
    decode_file, encode_file, lemma_file_elides, lemma_file_round_trip, File, FileExternal,
    FileExternalParameter, FileExternalView, FileView,
};
use crate::others::rich_text::{RichText, RichTextView};
use crate::registry::{
    agree_on, declares, lemma_extra_member_agrees, line, no_lines, sends_only, table_of, Field,
    FieldSpec, Visibility,
};
use vstd::prelude::*;

verus! {

/// A block that shows a PDF file.
#[derive(Clone, Debug, PartialEq, Eq)]
pub struct PdfBlock {
    /// The file. A block that is sent names its file by an address; one
    /// that the service keeps is only ever read.
    pub pdf: File,
}

/// The mathematical value of a [`PdfBlock`].
pub struct PdfBlockView {
    pub pdf: FileView,
}

impl DeepView for PdfBlock {
    type V = PdfBlockView;

    open spec fn deep_view(&self) -> PdfBlockView {
        PdfBlockView { pdf: self.pdf@ }
    }
}

impl View for PdfBlock {
    type V = PdfBlockView;

    open spec fn view(&self) -> PdfBlockView {
        self.deep_view()
    }
}

impl PdfBlockView {
    /// The block with `url` as the address of its file, where the caller
    /// names the file; the block itself where the service keeps it.
    pub open spec fn with_url(self, url: Seq<char>) -> PdfBlockView {
        match self.pdf {
            FileView::External(e) => PdfBlockView {
                pdf: FileView::External(FileExternalView { url, ..e }),
            },
            FileView::File(_) => self,
        }
    }

    /// The block with `caption` as the caption of its file, where the
    /// caller names the file; the block itself where the service keeps it.
    pub open spec fn with_caption(self, caption: Seq<RichTextView>) -> PdfBlockView {
        match self.pdf {
            FileView::External(e) => PdfBlockView {
                pdf: FileView::External(FileExternalView { caption: Some(caption), ..e }),
            },
            FileView::File(_) => self,
        }
    }

    /// The block with `name` as the name of its file, where the caller
    /// names the file; the block itself where the service keeps it.
    pub open spec fn with_name(self, name: Seq<char>) -> PdfBlockView {
        match self.pdf {
            FileView::External(e) => PdfBlockView {
                pdf: FileView::External(FileExternalView { name: Some(name), ..e }),
            },
            FileView::File(_) => self,
        }
    }

    /// The block as it is sent.
    pub open spec fn sent(self) -> PdfBlockView {
        PdfBlockView { pdf: self.pdf.sent() }
    }
}

/// The block that names its file by `url` and has nothing else filled in.
pub open spec fn pdf_block_of(url: Seq<char>) -> PdfBlockView {
    PdfBlockView {
        pdf: FileView::External(FileExternalView { url, caption: None, name: None }),
    }
}

/// The field table of a PDF block.
pub open spec fn pdf_block_fields() -> Seq<FieldSpec> {
    seq![FieldSpec { key: "pdf"@, visibility: Visibility::ReadWrite, required: true }]
}

/// What a document decodes to as a PDF block.
pub open spec fn decode_pdf_block(j: JsonValue) -> Result<PdfBlockView, ErrorView> {
    match required_object(j, "pdf"@) {
        Err(e) => Err(e),
        Ok(file) => match decode_file(file) {
            Err(e) => Err(e),
            Ok(pdf) => Ok(PdfBlockView { pdf }),
        },
    }
}

/// The document that a PDF block is written as.
pub open spec fn encode_pdf_block(b: PdfBlockView) -> JsonValue {
    JsonValue::Object(Seq::empty().push(("pdf"@, encode_file(b.pdf))))
}

/// A PDF block that is written and read again is the block that was sent.
pub proof fn lemma_pdf_block_round_trip(b: PdfBlockView)
    ensures
        decode_pdf_block(encode_pdf_block(b)) == Ok::<PdfBlockView, ErrorView>(b.sent()),
{
    broadcast use {lemma_lookup_push, lemma_lookup_empty};

    lemma_file_round_trip(b.pdf);
}

/// What is written of a PDF block does not depend on what only the
/// service fills in.
pub proof fn lemma_pdf_block_elides(b: PdfBlockView)
    ensures
        encode_pdf_block(b) == encode_pdf_block(b.sent()),
{
    lemma_file_elides(b.pdf);
}

/// Decoding a PDF block reads the keys of its field table and no others:
/// two documents that agree on them decode alike.
pub proof fn lemma_pdf_block_reads_declared(a: JsonValue, b: JsonValue)
    requires
        agree_on(pdf_block_fields(), a, b),
    ensures
        decode_pdf_block(a) == decode_pdf_block(b),
{
    assert(pdf_block_fields()[0].key == "pdf"@);
}

/// A PDF block is written with keys of its field table only.
pub proof fn lemma_pdf_block_sends_declared(b: PdfBlockView)
    ensures
        sends_only(pdf_block_fields(), encode_pdf_block(b)),
{
    broadcast use {lemma_lookup_push, lemma_lookup_empty};

    assert(pdf_block_fields()[0].key == "pdf"@);
}

/// A mutator that is applied to a block whose file the service keeps
/// leaves the block as it is.
pub proof fn lemma_pdf_block_mutators_no_op(
    b: PdfBlockView,
    url: Seq<char>,
    caption: Seq<RichTextView>,
    name: Seq<char>,
)
    requires
        b.pdf is File,
    ensures
        b.with_url(url) == b,
        b.with_caption(caption) == b,
        b.with_name(name) == b,
{
}

impl Default for PdfBlock {
    fn default() -> (r: PdfBlock)
        ensures
            r@ == pdf_block_of(Seq::empty()),
    {
        PdfBlock { pdf: File::default() }
    }
}

impl From<&str> for PdfBlock {
    /// A block that names its file by `url`.
    fn from(url: &str) -> (r: PdfBlock)
        ensures
            r@ == pdf_block_of(url@),
    {
        PdfBlock { pdf: File::external(url) }
    }
}

impl vstd::std_specs::convert::FromSpecImpl<&str> for PdfBlock {
    open spec fn obeys_from_spec() -> bool {
        false
    }

    open spec fn from_spec(url: &str) -> PdfBlock {
        choose|b: PdfBlock| b@ == pdf_block_of(url@)
    }
}

impl PdfBlock {
    /// The block as one of the family of blocks.
    pub fn build(self) -> (r: BlockType)
        ensures
            r == BlockType::Pdf(self),
    {
        BlockType::Pdf(self)
    }

    /// A block that names its file, with nothing filled in yet.
    pub fn new() -> (r: PdfBlock)
        ensures
            r@ == pdf_block_of(Seq::empty()),
    {
        PdfBlock::default()
    }

    /// Sets the address of the file. Where the service keeps the file, the
    /// block is handed back as it came.
    pub fn url(self, url: &str) -> (r: PdfBlock)
        ensures
            r@ == self@.with_url(url@),
            self.pdf is File ==> r == self,
    {
        match self.pdf {
            File::External(e) => PdfBlock {
                pdf: File::External(
                    FileExternal {
                        external: FileExternalParameter { url: url.to_owned() },
                        caption: e.caption,
                        name: e.name,
                    },
                ),
            },
            File::File(f) => PdfBlock { pdf: File::File(f) },
        }
    }

    /// Sets the caption of the file. Where the service keeps the file, the
    /// block is handed back as it came.
    pub fn caption(self, caption: Vec<RichText>) -> (r: PdfBlock)
        ensures
            r@ == self@.with_caption(caption.deep_view()),
            self.pdf is File ==> r == self,
    {
        match self.pdf {
            File::External(e) => PdfBlock {
                pdf: File::External(
                    FileExternal { external: e.external, caption: Some(caption), name: e.name },
                ),
            },
            File::File(f) => PdfBlock { pdf: File::File(f) },
        }
    }

    /// Sets the name of the file. Where the service keeps the file, the
    /// block is handed back as it came.
    pub fn name(self, name: &str) -> (r: PdfBlock)
        ensures
            r@ == self@.with_name(name@),
            self.pdf is File ==> r == self,
    {
        match self.pdf {
            File::External(e) => PdfBlock {
                pdf: File::External(
                    FileExternal {
                        external: e.external,
                        caption: e.caption,
                        name: Some(name.to_owned()),
                    },
                ),
            },
            File::File(f) => PdfBlock { pdf: File::File(f) },
        }
    }

    /// Reads a PDF block from a document.
    pub fn from_json(j: &Json) -> (r: Result<PdfBlock, Error>)
        ensures
            outcome(r) == decode_pdf_block(j@),
    {
        let file = read_required_object(j, "pdf")?;
        let pdf = File::from_json(file)?;
        Ok(PdfBlock { pdf })
    }

    /// Writes the block as a document, without what only the service fills
    /// in.
    pub fn to_json(&self) -> (r: Json)
        ensures
            r@ == encode_pdf_block(self@),
    {
        let mut members: Vec<(String, Json)> = Vec::new();
        assert(members_of(members@) =~= Seq::empty());
        put(&mut members, "pdf", self.pdf.to_json());
        object(members)
    }
}

impl PdfBlock {
    /// The field table of a PDF block.
    pub fn fields() -> (table: Vec<Field>)
        ensures
            table_of(table@) == pdf_block_fields(),
    {
        let mut table = no_lines();
        line(&mut table, "pdf", Visibility::ReadWrite, true);
        assert(table_of(table@) =~= pdf_block_fields());
        table
    }
}

/// Reading a PDF block passes over what it does not know: a member under a key
/// that the field table has no line for, put anywhere among the members
/// of a document, changes nothing of what is read.
pub proof fn lemma_pdf_block_ignores_extra(
    members: Seq<(Seq<char>, JsonValue)>,
    at: int,
    extra: (Seq<char>, JsonValue),
)
    requires
        0 <= at <= members.len(),
        !declares(pdf_block_fields(), extra.0),
    ensures
        decode_pdf_block(JsonValue::Object(members.insert(at, extra))) == decode_pdf_block(
            JsonValue::Object(members),
        ),
{
    lemma_extra_member_agrees(pdf_block_fields(), members, at, extra);
    lemma_pdf_block_reads_declared(
        JsonValue::Object(members.insert(at, extra)),
        JsonValue::Object(members),
    );
}

/// A document without a file is refused as a PDF block for the missing
/// file.
pub proof fn lemma_pdf_block_missing_field(j: JsonValue)
    requires
        j.field("pdf"@) is None,
    ensures
        decode_pdf_block(j) == Err::<PdfBlockView, ErrorView>(
            ErrorView::MissingField { field: "pdf"@ },
        ),
{
}

/// A document that is read as a PDF block and written again reads as the
/// block that was read, without what only the service fills in.
pub proof fn lemma_pdf_block_reserialize(j: JsonValue)
    requires
        decode_pdf_block(j) is Ok,
    ensures
        decode_pdf_block(encode_pdf_block(decode_pdf_block(j)->Ok_0)) == Ok::<
            PdfBlockView,
            ErrorView,
        >(decode_pdf_block(j)->Ok_0.sent()),
{
    lemma_pdf_block_round_trip(decode_pdf_block(j)->Ok_0);
}

/// A field that the table marks as required is asked for: a document that
/// lacks one is refused as a PDF block.
pub proof fn lemma_pdf_block_asks_required(j: JsonValue, i: int)
    requires
        0 <= i < pdf_block_fields().len(),
        pdf_block_fields()[i].required,
        j.field(pdf_block_fields()[i].key) is None,
    ensures
        decode_pdf_block(j) is Err,
{
    let table = pdf_block_fields();
    assert(table[0].key == "pdf"@);
}

} // verus!
