use crate::error::{outcome, Error, ErrorView};
use crate::field::{
    array, defaulted_str, object, optional_array, optional_str, put, put_optional_str, put_str,
    read_defaulted_str, read_optional_array, read_optional_str, read_required_object,
    read_required_str, read_tag, required_object, required_str, tag, with_optional_str,
};
use crate::json::{lemma_lookup_empty, lemma_lookup_push, lookup, members_of, Json, JsonValue};
use crate::others::rich_text::{
    decode_rich_texts, encode_rich_texts, lemma_rich_texts_round_trip, sent_rich_texts, RichText,
    RichTextView,
};
use crate::registry::{
    agree_on, declares, lemma_extra_member_agrees, line, no_lines, sends_only, table_of, Field,
    FieldSpec, Visibility,
};
use crate::text::same_text;
use vstd::prelude::*;

verus! {

/// Where a file lies that the caller names by its address.
#[derive(Clone, Debug, Default, PartialEq, Eq)]
pub struct FileExternalParameter {
    pub url: String,
}

/// Where a file lies that the service keeps. Both fields are the
/// service's: they are read from its answers, never sent, and no caller
/// can fill them in. They are empty in a value that was read from a
/// document that was written for the service.
#[derive(Clone, Debug, PartialEq, Eq)]
pub struct FileFileParameter {
    url: String,
    expiry_time: String,
}

impl FileFileParameter {
    /// The address of the file, as characters.
    pub closed spec fn url_value(&self) -> Seq<char> {
        self.url@
    }

    /// The time until which the address holds, as characters.
    pub closed spec fn expiry_time_value(&self) -> Seq<char> {
        self.expiry_time@
    }

    /// The address of the file.
    pub fn url(&self) -> (r: &str)
        ensures
            r@ == self.url_value(),
    {
        self.url.as_str()
    }

    /// The time until which the address holds.
    pub fn expiry_time(&self) -> (r: &str)
        ensures
            r@ == self.expiry_time_value(),
    {
        self.expiry_time.as_str()
    }
}

/// A file that the caller names by its address.
#[derive(Clone, Debug, Default, PartialEq, Eq)]
pub struct FileExternal {
    pub external: FileExternalParameter,
    pub caption: Option<Vec<RichText>>,
    pub name: Option<String>,
}

/// A file that the service keeps.
#[derive(Clone, Debug, PartialEq, Eq)]
pub struct FileFile {
    pub file: FileFileParameter,
    pub caption: Option<Vec<RichText>>,
    pub name: Option<String>,
}

/// A reference to a file: one that the caller names, or one that the
/// service keeps.
#[derive(Clone, Debug, PartialEq, Eq)]
pub enum File {
    External(FileExternal),
    File(FileFile),
}

/// The mathematical value of a [`FileExternal`].
pub struct FileExternalView {
    pub url: Seq<char>,
    pub caption: Option<Seq<RichTextView>>,
    pub name: Option<Seq<char>>,
}

/// The mathematical value of a [`FileFile`].
pub struct FileFileView {
    pub url: Seq<char>,
    pub expiry_time: Seq<char>,
    pub caption: Option<Seq<RichTextView>>,
    pub name: Option<Seq<char>>,
}

/// The mathematical value of a [`File`].
pub enum FileView {
    External(FileExternalView),
    File(FileFileView),
}

impl DeepView for FileExternal {
    type V = FileExternalView;

    open spec fn deep_view(&self) -> FileExternalView {
        FileExternalView {
            url: self.external.url@,
            caption: self.caption.deep_view(),
            name: self.name.deep_view(),
        }
    }
}

impl View for FileExternal {
    type V = FileExternalView;

    open spec fn view(&self) -> FileExternalView {
        self.deep_view()
    }
}

impl DeepView for FileFile {
    type V = FileFileView;

    open spec fn deep_view(&self) -> FileFileView {
        FileFileView {
            url: self.file.url_value(),
            expiry_time: self.file.expiry_time_value(),
            caption: self.caption.deep_view(),
            name: self.name.deep_view(),
        }
    }
}

impl View for FileFile {
    type V = FileFileView;

    open spec fn view(&self) -> FileFileView {
        self.deep_view()
    }
}

impl DeepView for File {
    type V = FileView;

    open spec fn deep_view(&self) -> FileView {
        match self {
            File::External(e) => FileView::External(e@),
            File::File(f) => FileView::File(f@),
        }
    }
}

impl View for File {
    type V = FileView;

    open spec fn view(&self) -> FileView {
        self.deep_view()
    }
}

/// A caption as it is sent.
pub open spec fn sent_caption(caption: Option<Seq<RichTextView>>) -> Option<Seq<RichTextView>> {
    match caption {
        Some(run) => Some(sent_rich_texts(run)),
        None => None,
    }
}

impl FileExternalView {
    /// The file as it is sent: its caption without what only the service
    /// fills in.
    pub open spec fn sent(self) -> FileExternalView {
        FileExternalView { caption: sent_caption(self.caption), ..self }
    }
}

impl FileFileView {
    /// The file as it is sent: without the address and the time, which are
    /// the service's, and its caption without what only the service fills
    /// in.
    pub open spec fn sent(self) -> FileFileView {
        FileFileView {
            url: Seq::empty(),
            expiry_time: Seq::empty(),
            caption: sent_caption(self.caption),
            name: self.name,
        }
    }
}

impl FileView {
    /// The file as it is sent.
    pub open spec fn sent(self) -> FileView {
        match self {
            FileView::External(e) => FileView::External(e.sent()),
            FileView::File(f) => FileView::File(f.sent()),
        }
    }

    /// The discriminator of the active variant.
    pub open spec fn discriminator(self) -> Seq<char> {
        match self {
            FileView::External(_) => "external"@,
            FileView::File(_) => "file"@,
        }
    }
}

/// The field table of a file. Of `external` and `file`, a document holds
/// the one that its discriminator names.
pub open spec fn file_fields() -> Seq<FieldSpec> {
    seq![
        FieldSpec { key: "type"@, visibility: Visibility::ReadWrite, required: true },
        FieldSpec { key: "external"@, visibility: Visibility::ReadWrite, required: false },
        FieldSpec { key: "file"@, visibility: Visibility::ReadWrite, required: false },
        FieldSpec { key: "caption"@, visibility: Visibility::ReadWrite, required: false },
        FieldSpec { key: "name"@, visibility: Visibility::ReadWrite, required: false },
    ]
}

/// The field table of the payload of a file that the caller names.
pub open spec fn file_external_parameter_fields() -> Seq<FieldSpec> {
    seq![FieldSpec { key: "url"@, visibility: Visibility::ReadWrite, required: true }]
}

/// The field table of the payload of a file that the service keeps.
pub open spec fn file_file_parameter_fields() -> Seq<FieldSpec> {
    seq![
        FieldSpec { key: "url"@, visibility: Visibility::ReadOnly, required: false },
        FieldSpec { key: "expiry_time"@, visibility: Visibility::ReadOnly, required: false },
    ]
}

/// The caption under `caption`, if the document has one.
pub open spec fn decode_caption(j: JsonValue) -> Result<Option<Seq<RichTextView>>, ErrorView> {
    match optional_array(j, "caption"@) {
        Err(e) => Err(e),
        Ok(None) => Ok(None),
        Ok(Some(items)) => match decode_rich_texts(items) {
            Err(e) => Err(e),
            Ok(run) => Ok(Some(run)),
        },
    }
}

/// What a document decodes to as a file that the caller names.
pub open spec fn decode_file_external(j: JsonValue) -> Result<FileExternalView, ErrorView> {
    match required_object(j, "external"@) {
        Err(e) => Err(e),
        Ok(external) => match required_str(external, "url"@) {
            Err(e) => Err(e),
            Ok(url) => match decode_caption(j) {
                Err(e) => Err(e),
                Ok(caption) => match optional_str(j, "name"@) {
                    Err(e) => Err(e),
                    Ok(name) => Ok(FileExternalView { url, caption, name }),
                },
            },
        },
    }
}

/// What a document decodes to as a file that the service keeps.
pub open spec fn decode_file_file(j: JsonValue) -> Result<FileFileView, ErrorView> {
    match required_object(j, "file"@) {
        Err(e) => Err(e),
        Ok(file) => match defaulted_str(file, "url"@) {
            Err(e) => Err(e),
            Ok(url) => match defaulted_str(file, "expiry_time"@) {
                Err(e) => Err(e),
                Ok(expiry_time) => match decode_caption(j) {
                    Err(e) => Err(e),
                    Ok(caption) => match optional_str(j, "name"@) {
                        Err(e) => Err(e),
                        Ok(name) => Ok(FileFileView { url, expiry_time, caption, name }),
                    },
                },
            },
        },
    }
}

/// What a document decodes to as a file. The discriminator under `type`
/// picks the variant; one that is absent, or names neither variant, is
/// refused.
pub open spec fn decode_file(j: JsonValue) -> Result<FileView, ErrorView> {
    match tag(j, "type"@) {
        None => Err(ErrorView::UnknownVariant { family: "file"@, discriminator: None }),
        Some(kind) => if kind == "external"@ {
            match decode_file_external(j) {
                Err(e) => Err(e),
                Ok(e) => Ok(FileView::External(e)),
            }
        } else if kind == "file"@ {
            match decode_file_file(j) {
                Err(e) => Err(e),
                Ok(f) => Ok(FileView::File(f)),
            }
        } else {
            Err(ErrorView::UnknownVariant { family: "file"@, discriminator: Some(kind) })
        },
    }
}

/// `members` with the caption behind them where there is one.
pub open spec fn with_caption(
    members: Seq<(Seq<char>, JsonValue)>,
    caption: Option<Seq<RichTextView>>,
) -> Seq<(Seq<char>, JsonValue)> {
    match caption {
        Some(run) => members.push(("caption"@, JsonValue::Array(encode_rich_texts(run)))),
        None => members,
    }
}

/// The document that a file is written as: the discriminator of the active
/// variant, the payload under the same word, and the caption and the name
/// where there are any. The payload of a file that the service keeps is
/// written empty, for both of its fields are the service's.
pub open spec fn encode_file(f: FileView) -> JsonValue {
    match f {
        FileView::External(e) => JsonValue::Object(
            with_optional_str(
                with_caption(
                    Seq::empty().push(("type"@, JsonValue::Str("external"@))).push(
                        (
                            "external"@,
                            JsonValue::Object(Seq::empty().push(("url"@, JsonValue::Str(e.url)))),
                        ),
                    ),
                    e.caption,
                ),
                "name"@,
                e.name,
            ),
        ),
        FileView::File(f) => JsonValue::Object(
            with_optional_str(
                with_caption(
                    Seq::empty().push(("type"@, JsonValue::Str("file"@))).push(
                        ("file"@, JsonValue::Object(Seq::empty())),
                    ),
                    f.caption,
                ),
                "name"@,
                f.name,
            ),
        ),
    }
}

/// The keys of a file, and its two discriminators, differ from each other.
pub proof fn lemma_file_keys()
    ensures
        "type"@ != "external"@,
        "type"@ != "file"@,
        "type"@ != "caption"@,
        "type"@ != "name"@,
        "external"@ != "file"@,
        "external"@ != "caption"@,
        "external"@ != "name"@,
        "file"@ != "caption"@,
        "file"@ != "name"@,
        "caption"@ != "name"@,
        "url"@ != "expiry_time"@,
{
    reveal_strlit("type");
    reveal_strlit("external");
    reveal_strlit("file");
    reveal_strlit("caption");
    reveal_strlit("name");
    reveal_strlit("url");
    reveal_strlit("expiry_time");
    assert("type"@.len() == 4 && "type"@[0] == 't');
    assert("external"@.len() == 8);
    assert("file"@.len() == 4 && "file"@[0] == 'f');
    assert("caption"@.len() == 7);
    assert("name"@.len() == 4 && "name"@[0] == 'n');
    assert("url"@.len() == 3);
    assert("expiry_time"@.len() == 11);
}

/// A caption that is written and read again is the caption that was sent.
pub proof fn lemma_caption_round_trip(
    members: Seq<(Seq<char>, JsonValue)>,
    caption: Option<Seq<RichTextView>>,
)
    requires
        lookup(members, "caption"@) is None,
    ensures
        decode_caption(JsonValue::Object(with_caption(members, caption))) == Ok::<
            Option<Seq<RichTextView>>,
            ErrorView,
        >(sent_caption(caption)),
{
    broadcast use {lemma_lookup_push, lemma_lookup_empty};

    match caption {
        Some(run) => lemma_rich_texts_round_trip(run),
        None => {},
    }
}

/// A file that the caller names, written and read again, is the file that
/// was sent.
pub proof fn lemma_file_external_round_trip(e: FileExternalView)
    ensures
        decode_file(encode_file(FileView::External(e))) == Ok::<FileView, ErrorView>(
            FileView::External(e.sent()),
        ),
{
    broadcast use {lemma_lookup_push, lemma_lookup_empty};

    lemma_file_keys();
    let head = Seq::empty().push(("type"@, JsonValue::Str("external"@))).push(
        ("external"@, JsonValue::Object(Seq::empty().push(("url"@, JsonValue::Str(e.url))))),
    );
    lemma_caption_round_trip(head, e.caption);
    let j = encode_file(FileView::External(e));
    let front = JsonValue::Object(with_caption(head, e.caption));
    assert(j.field("caption"@) == front.field("caption"@));
}

/// A file that is written and read again is the file that was sent: of
/// a file that the service keeps, the caption and the name.
pub proof fn lemma_file_round_trip(f: FileView)
    ensures
        decode_file(encode_file(f)) == Ok::<FileView, ErrorView>(f.sent()),
{
    broadcast use {lemma_lookup_push, lemma_lookup_empty};

    lemma_file_keys();
    match f {
        FileView::External(e) => lemma_file_external_round_trip(e),
        FileView::File(k) => {
            let head = Seq::empty().push(("type"@, JsonValue::Str("file"@))).push(
                ("file"@, JsonValue::Object(Seq::empty())),
            );
            lemma_caption_round_trip(head, k.caption);
            let j = encode_file(f);
            let front = JsonValue::Object(with_caption(head, k.caption));
            assert(j.field("caption"@) == front.field("caption"@));
        },
    }
}

/// What is written of a file does not depend on what only the service
/// fills in.
pub proof fn lemma_file_elides(f: FileView)
    ensures
        encode_file(f) == encode_file(f.sent()),
{
    match f {
        FileView::External(e) => match e.caption {
            Some(run) => {
                assert(encode_rich_texts(run) =~= encode_rich_texts(sent_rich_texts(run)));
            },
            None => {},
        },
        FileView::File(f) => match f.caption {
            Some(run) => {
                assert(encode_rich_texts(run) =~= encode_rich_texts(sent_rich_texts(run)));
            },
            None => {},
        },
    }
}

/// A file is written under the discriminator of its active variant, with a
/// payload under the same word.
pub proof fn lemma_file_tag(f: FileView)
    ensures
        tag(encode_file(f), "type"@) == Some(f.discriminator()),
        encode_file(f).field(f.discriminator()) is Some,
{
    broadcast use {lemma_lookup_push, lemma_lookup_empty};

    lemma_file_keys();
}

/// Decoding a file reads the keys of its field table and no others: two
/// documents that agree on them decode alike.
pub proof fn lemma_file_reads_declared(a: JsonValue, b: JsonValue)
    requires
        agree_on(file_fields(), a, b),
    ensures
        decode_file(a) == decode_file(b),
{
    let table = file_fields();
    assert(table[0].key == "type"@ && table[1].key == "external"@ && table[2].key == "file"@
        && table[3].key == "caption"@ && table[4].key == "name"@);
}

/// A file is written with keys of its field table only, and the payload of
/// a file that the service keeps is written without a member.
pub proof fn lemma_file_sends_declared(f: FileView)
    ensures
        sends_only(file_fields(), encode_file(f)),
        f is File ==> encode_file(f).field("file"@) == Some(JsonValue::Object(Seq::empty())),
{
    broadcast use {lemma_lookup_push, lemma_lookup_empty};

    lemma_file_keys();
    let table = file_fields();
    assert(table[0].key == "type"@ && table[1].key == "external"@ && table[2].key == "file"@
        && table[3].key == "caption"@ && table[4].key == "name"@);
}

/// Reads the caption of a document.
pub fn read_caption(j: &Json) -> (r: Result<Option<Vec<RichText>>, Error>)
    ensures
        outcome(r) == decode_caption(j@),
{
    match read_optional_array(j, "caption")? {
        None => Ok(None),
        Some(items) => Ok(Some(RichText::list_from_json(items)?)),
    }
}

/// Writes the caption behind the members that are there, where there is
/// one.
pub fn put_caption(members: &mut Vec<(String, Json)>, caption: &Option<Vec<RichText>>)
    ensures
        members_of(final(members)@) == with_caption(
            members_of(old(members)@),
            caption.deep_view(),
        ),
{
    match caption {
        Some(run) => put(members, "caption", array(RichText::list_to_json(run))),
        None => {},
    }
}

impl FileExternal {
    /// Reads a file that the caller names from a document.
    pub fn from_json(j: &Json) -> (r: Result<FileExternal, Error>)
        ensures
            outcome(r) == decode_file_external(j@),
    {
        let external = read_required_object(j, "external")?;
        let url = read_required_str(external, "url")?;
        let caption = read_caption(j)?;
        let name = read_optional_str(j, "name")?;
        Ok(FileExternal { external: FileExternalParameter { url }, caption, name })
    }
}

impl FileFile {
    /// Reads a file that the service keeps from a document.
    pub fn from_json(j: &Json) -> (r: Result<FileFile, Error>)
        ensures
            outcome(r) == decode_file_file(j@),
    {
        let file = read_required_object(j, "file")?;
        let url = read_defaulted_str(file, "url")?;
        let expiry_time = read_defaulted_str(file, "expiry_time")?;
        let caption = read_caption(j)?;
        let name = read_optional_str(j, "name")?;
        Ok(FileFile { file: FileFileParameter { url, expiry_time }, caption, name })
    }
}

impl Default for File {
    /// A file that the caller names, with nothing filled in yet.
    fn default() -> (r: File)
        ensures
            r@ == FileView::External(
                FileExternalView { url: Seq::empty(), caption: None, name: None },
            ),
    {
        File::External(
            FileExternal {
                external: FileExternalParameter { url: String::new() },
                caption: None,
                name: None,
            },
        )
    }
}

impl File {
    /// The discriminator of the active variant.
    pub fn discriminator(&self) -> (r: &'static str)
        ensures
            r@ == self@.discriminator(),
    {
        match self {
            File::External(_) => "external",
            File::File(_) => "file",
        }
    }

    /// A file that the caller names by `url`.
    pub fn external(url: &str) -> (r: File)
        ensures
            r@ == FileView::External(FileExternalView { url: url@, caption: None, name: None }),
    {
        File::External(
            FileExternal {
                external: FileExternalParameter { url: url.to_owned() },
                caption: None,
                name: None,
            },
        )
    }

    /// Reads a file from a document.
    pub fn from_json(j: &Json) -> (r: Result<File, Error>)
        ensures
            outcome(r) == decode_file(j@),
    {
        match read_tag(j, "type") {
            None => Err(Error::UnknownVariant { family: "file".to_owned(), discriminator: None }),
            Some(kind) => {
                if same_text(kind.as_str(), "external") {
                    Ok(File::External(FileExternal::from_json(j)?))
                } else if same_text(kind.as_str(), "file") {
                    Ok(File::File(FileFile::from_json(j)?))
                } else {
                    Err(
                        Error::UnknownVariant {
                            family: "file".to_owned(),
                            discriminator: Some(kind),
                        },
                    )
                }
            },
        }
    }

    /// Writes the file as a document, without what only the service fills
    /// in.
    pub fn to_json(&self) -> (r: Json)
        ensures
            r@ == encode_file(self@),
    {
        let mut members: Vec<(String, Json)> = Vec::new();
        assert(members_of(members@) =~= Seq::empty());
        let mut payload: Vec<(String, Json)> = Vec::new();
        assert(members_of(payload@) =~= Seq::empty());
        match self {
            File::External(e) => {
                put_str(&mut members, "type", "external");
                put_str(&mut payload, "url", e.external.url.as_str());
                put(&mut members, "external", object(payload));
                put_caption(&mut members, &e.caption);
                put_optional_str(&mut members, "name", &e.name);
            },
            File::File(f) => {
                put_str(&mut members, "type", "file");
                put(&mut members, "file", object(payload));
                put_caption(&mut members, &f.caption);
                put_optional_str(&mut members, "name", &f.name);
            },
        }
        object(members)
    }
}

impl File {
    /// The field table of a file.
    pub fn fields() -> (table: Vec<Field>)
        ensures
            table_of(table@) == file_fields(),
    {
        let mut table = no_lines();
        line(&mut table, "type", Visibility::ReadWrite, true);
        line(&mut table, "external", Visibility::ReadWrite, false);
        line(&mut table, "file", Visibility::ReadWrite, false);
        line(&mut table, "caption", Visibility::ReadWrite, false);
        line(&mut table, "name", Visibility::ReadWrite, false);
        assert(table_of(table@) =~= file_fields());
        table
    }
}

impl FileExternalParameter {
    /// The field table of the payload of a file that the caller names.
    pub fn fields() -> (table: Vec<Field>)
        ensures
            table_of(table@) == file_external_parameter_fields(),
    {
        let mut table = no_lines();
        line(&mut table, "url", Visibility::ReadWrite, true);
        assert(table_of(table@) =~= file_external_parameter_fields());
        table
    }
}

impl FileFileParameter {
    /// The field table of the payload of a file that the service keeps.
    pub fn fields() -> (table: Vec<Field>)
        ensures
            table_of(table@) == file_file_parameter_fields(),
    {
        let mut table = no_lines();
        line(&mut table, "url", Visibility::ReadOnly, false);
        line(&mut table, "expiry_time", Visibility::ReadOnly, false);
        assert(table_of(table@) =~= file_file_parameter_fields());
        table
    }
}

/// Reading a file passes over what it does not know: a member under a key
/// that the field table has no line for, put anywhere among the members
/// of a document, changes nothing of what is read.
pub proof fn lemma_file_ignores_extra(
    members: Seq<(Seq<char>, JsonValue)>,
    at: int,
    extra: (Seq<char>, JsonValue),
)
    requires
        0 <= at <= members.len(),
        !declares(file_fields(), extra.0),
    ensures
        decode_file(JsonValue::Object(members.insert(at, extra))) == decode_file(
            JsonValue::Object(members),
        ),
{
    lemma_extra_member_agrees(file_fields(), members, at, extra);
    lemma_file_reads_declared(
        JsonValue::Object(members.insert(at, extra)),
        JsonValue::Object(members),
    );
}

/// A document that lacks the payload that its discriminator names, or
/// the address of a file that the caller names, is refused for what is
/// missing.
pub proof fn lemma_file_missing_field(j: JsonValue)
    ensures
        tag(j, "type"@) == Some("external"@) && j.field("external"@) is None ==> decode_file(j)
            == Err::<FileView, ErrorView>(ErrorView::MissingField { field: "external"@ }),
        tag(j, "type"@) == Some("external"@) && required_object(j, "external"@) is Ok
            && required_object(j, "external"@)->Ok_0.field("url"@) is None ==> decode_file(j)
            == Err::<FileView, ErrorView>(ErrorView::MissingField { field: "url"@ }),
        tag(j, "type"@) == Some("file"@) && j.field("file"@) is None ==> decode_file(j) == Err::<
            FileView,
            ErrorView,
        >(ErrorView::MissingField { field: "file"@ }),
{
    lemma_file_keys();
}

/// A document that is read as a file and written again reads as the file
/// that was read, without what only the service fills in.
pub proof fn lemma_file_reserialize(j: JsonValue)
    requires
        decode_file(j) is Ok,
    ensures
        decode_file(encode_file(decode_file(j)->Ok_0)) == Ok::<FileView, ErrorView>(
            decode_file(j)->Ok_0.sent(),
        ),
{
    lemma_file_round_trip(decode_file(j)->Ok_0);
}

/// A field that the table marks as required is asked for: a document that
/// lacks one is refused as a file.
pub proof fn lemma_file_asks_required(j: JsonValue, i: int)
    requires
        0 <= i < file_fields().len(),
        file_fields()[i].required,
        j.field(file_fields()[i].key) is None,
    ensures
        decode_file(j) is Err,
{
    let table = file_fields();
    assert(table[0].key == "type"@
        && table[1].key == "external"@
        && table[2].key == "file"@
        && table[3].key == "caption"@
        && table[4].key == "name"@);
}

/// A document whose discriminator is absent, or names neither variant, is
/// refused as such, whatever else it holds; and a file that is read holds
/// the variant that the document's discriminator names.
pub proof fn lemma_file_unknown(j: JsonValue)
    ensures
        tag(j, "type"@) != Some("external"@) && tag(j, "type"@) != Some("file"@) ==> decode_file(j)
            == Err::<FileView, ErrorView>(
            ErrorView::UnknownVariant { family: "file"@, discriminator: tag(j, "type"@) },
        ),
        decode_file(j) is Ok ==> tag(j, "type"@) == Some(decode_file(j)->Ok_0.discriminator()),
{
}

} // verus!
