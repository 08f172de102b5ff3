use notionrs::block::paragraph::ParagraphBlock;
use notionrs::block::pdf::PdfBlock;
use notionrs::block::BlockType;
use notionrs::database::properties::multi_select::DatabaseMultiSelectProperty;
use notionrs::json::Json;
use notionrs::others::color::Color;
use notionrs::others::file::File;
use notionrs::others::rich_text::RichText;
use notionrs::others::select::{Select, SelectColor};

fn hosted() -> PdfBlock {
    let doc = Json::Object(vec![(
        "pdf".to_string(),
        Json::Object(vec![
            ("type".to_string(), Json::Str("file".to_string())),
            (
                "file".to_string(),
                Json::Object(vec![
                    ("url".to_string(), Json::Str("https://files.test/x".to_string())),
                    (
                        "expiry_time".to_string(),
                        Json::Str("2024-08-20T11:07:14.256Z".to_string()),
                    ),
                ]),
            ),
        ]),
    )]);
    PdfBlock::from_json(&doc).unwrap()
}

#[test]
fn pdf_block_builder_sets_external_fields() {
    let block = PdfBlock::new()
        .url("https://example.com/a.pdf")
        .name("a.pdf")
        .caption(vec![RichText::from("A file")]);
    match &block.pdf {
        File::External(e) => {
            assert_eq!(e.external.url, "https://example.com/a.pdf");
            assert_eq!(e.name, Some("a.pdf".to_string()));
            assert_eq!(e.caption, Some(vec![RichText::from("A file")]));
        }
        File::File(_) => panic!(),
    }
    match block.build() {
        BlockType::Pdf(_) => {}
        _ => panic!(),
    }
}

#[test]
fn new_pdf_block_names_an_empty_address() {
    let block = PdfBlock::new();
    assert_eq!(block, PdfBlock::default());
    assert_eq!(block, PdfBlock::from(""));
    match block.pdf {
        File::External(e) => {
            assert_eq!(e.external.url, "");
            assert_eq!(e.caption, None);
            assert_eq!(e.name, None);
        }
        File::File(_) => panic!(),
    }
}

#[test]
fn later_mutator_wins() {
    let block = PdfBlock::from("https://example.com/a.pdf").url("https://example.com/b.pdf");
    assert_eq!(block, PdfBlock::from("https://example.com/b.pdf"));
}

#[test]
fn mutators_leave_a_hosted_file_unchanged() {
    let before = hosted();
    assert_eq!(hosted().url("https://example.com/a.pdf"), before);
    assert_eq!(hosted().name("a.pdf"), before);
    assert_eq!(hosted().caption(vec![RichText::from("A file")]), before);
    assert_eq!(
        hosted().url("u").name("n").caption(vec![]).to_json(),
        before.to_json()
    );
}

#[test]
fn paragraph_from_a_string_is_one_plain_span() {
    let paragraph = ParagraphBlock::from("Hello");
    assert_eq!(paragraph.rich_text.len(), 1);
    assert_eq!(paragraph.rich_text[0].content, "Hello");
    assert_eq!(paragraph.rich_text[0].link, None);
    assert_eq!(paragraph.rich_text[0].plain_text, None);
    assert_eq!(paragraph.color, Color::Default);
    let empty = ParagraphBlock::new();
    assert_eq!(empty, ParagraphBlock::default());
    let filled = empty.rich_text(vec![RichText::from("Hello")]);
    assert_eq!(filled, paragraph);
    assert_eq!(filled.color(Color::Red).color, Color::Red);
}

#[test]
fn multi_select_builder_sets_options_and_name() {
    let property = DatabaseMultiSelectProperty::default()
        .name("Stores")
        .options(vec![Select::from("A"), Select::from("B").color(SelectColor::Pink)]);
    assert_eq!(property.name, "Stores");
    assert_eq!(property.id, None);
    assert_eq!(property.multi_select.options.len(), 2);
    assert_eq!(property.multi_select.options[0].name, "A");
    assert_eq!(property.multi_select.options[0].color, SelectColor::Default);
    assert_eq!(property.multi_select.options[1].name, "B");
    assert_eq!(property.multi_select.options[1].color, SelectColor::Pink);
}

#[test]
fn span_flags_are_set_one_by_one() {
    let span = RichText::from("words").bold().code().color(Color::Red).link("https://a.test/");
    assert!(span.annotations.bold && span.annotations.code);
    assert!(!span.annotations.italic && !span.annotations.underline);
    assert!(!span.annotations.strikethrough);
    assert_eq!(span.annotations.color, Color::Red);
    assert_eq!(span.link, Some("https://a.test/".to_string()));
    assert_eq!(span.content, "words");
    let all = RichText::default().italic().underline().strikethrough();
    assert!(all.annotations.italic && all.annotations.underline && all.annotations.strikethrough);
    assert!(!all.annotations.bold);
    assert_eq!(RichText::from_json(&span.to_json()), Ok(span));
}
