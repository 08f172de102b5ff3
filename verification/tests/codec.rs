use notionrs::block::paragraph::ParagraphBlock;
use notionrs::block::pdf::PdfBlock;
use notionrs::block::BlockType;
use notionrs::database::properties::created_by::DatabaseCreatedByProperty;
use notionrs::database::properties::multi_select::DatabaseMultiSelectProperty;
use notionrs::database::properties::DatabaseProperty;
use notionrs::error::Error;
use notionrs::json::Json;
use notionrs::others::color::Color;
use notionrs::others::file::File;
use notionrs::others::rich_text::{RichText, RichTextAnnotations};
use notionrs::others::select::{Select, SelectColor};

fn tree(value: &serde_json::Value) -> Json {
    match value {
        serde_json::Value::Null => Json::Null,
        serde_json::Value::Bool(b) => Json::Bool(*b),
        serde_json::Value::Number(n) => Json::Number(n.to_string()),
        serde_json::Value::String(s) => Json::Str(s.clone()),
        serde_json::Value::Array(items) => Json::Array(items.iter().map(tree).collect()),
        serde_json::Value::Object(members) => {
            Json::Object(members.iter().map(|(k, v)| (k.clone(), tree(v))).collect())
        }
    }
}

fn parse(text: &str) -> Json {
    tree(&serde_json::from_str::<serde_json::Value>(text).unwrap())
}

fn text(value: &str) -> Json {
    Json::Str(value.to_string())
}

fn member(key: &str, value: Json) -> (String, Json) {
    (key.to_string(), value)
}

#[test]
fn deserialize_block_file_() {
    let json_data = r#"
        {
            "pdf": {
                "caption": [],
                "type": "file",
                "file": {
                    "url": "https://prod-files-secure.s3.us-west-2.amazonaws.com/",
                    "expiry_time": "2024-08-20T11:07:14.256Z"
                }
            }
        }
        "#;

    let pdf_block = PdfBlock::from_json(&parse(json_data)).unwrap();

    assert_eq!(pdf_block.pdf.discriminator(), "file");
    match pdf_block.pdf {
        File::File(f) => {
            assert_eq!(f.caption, Some(vec![]));
            assert_eq!(
                f.file.url(),
                "https://prod-files-secure.s3.us-west-2.amazonaws.com/"
            );
            assert_eq!(f.file.expiry_time(), "2024-08-20T11:07:14.256Z");
        }
        File::External(_) => panic!(),
    }
}

#[test]
fn deserialize_database_created_by_property() {
    let json_data = r#"
        {
            "id": "%7Cy~C",
            "name": "CreatedBy",
            "type": "created_by",
            "created_by": {}
        }
        "#;

    let created_by = DatabaseCreatedByProperty::from_json(&parse(json_data)).unwrap();

    assert_eq!(created_by.id, Some("%7Cy~C".to_string()));
    assert_eq!(created_by.name, "CreatedBy");
    assert_eq!(created_by.created_by, std::collections::HashMap::new());
}

const MULTI_SELECT: &str = r#"
        {
            "id": "flsb",
            "name": "Store availability",
            "type": "multi_select",
            "multi_select": {
                "options": [
                {
                    "id": "5de29601-9c24-4b04-8629-0bca891c5120",
                    "name": "Duc Loi Market",
                    "color": "blue"
                },
                {
                    "id": "385890b8-fe15-421b-b214-b02959b0f8d9",
                    "name": "Rainbow Grocery",
                    "color": "gray"
                },
                {
                    "id": "72ac0a6c-9e00-4e8c-80c5-720e4373e0b9",
                    "name": "Nijiya Market",
                    "color": "purple"
                },
                {
                    "id": "9556a8f7-f4b0-4e11-b277-f0af1f8c9490",
                    "name": "Gus's Community Market",
                    "color": "yellow"
                }
                ]
            }
        }
        "#;

#[test]
fn deserialize_database_multi_select_property() {
    let multi_select = DatabaseMultiSelectProperty::from_json(&parse(MULTI_SELECT)).unwrap();

    assert_eq!(multi_select.id, Some("flsb".to_string()));
    assert_eq!(multi_select.name, "Store availability");

    let options = &multi_select.multi_select.options;
    assert_eq!(options.len(), 4);

    assert_eq!(
        options[0].id,
        Some("5de29601-9c24-4b04-8629-0bca891c5120".to_string())
    );
    assert_eq!(options[0].name, "Duc Loi Market");
    assert_eq!(options[0].color, SelectColor::Blue);

    assert_eq!(
        options[1].id,
        Some("385890b8-fe15-421b-b214-b02959b0f8d9".to_string())
    );
    assert_eq!(options[1].name, "Rainbow Grocery");
    assert_eq!(options[1].color, SelectColor::Gray);

    assert_eq!(
        options[2].id,
        Some("72ac0a6c-9e00-4e8c-80c5-720e4373e0b9".to_string())
    );
    assert_eq!(options[2].name, "Nijiya Market");
    assert_eq!(options[2].color, SelectColor::Purple);

    assert_eq!(
        options[3].id,
        Some("9556a8f7-f4b0-4e11-b277-f0af1f8c9490".to_string())
    );
    assert_eq!(options[3].name, "Gus's Community Market");
    assert_eq!(options[3].color, SelectColor::Yellow);
}

#[test]
fn multi_select_options_survive_reserialization() {
    let first = DatabaseMultiSelectProperty::from_json(&parse(MULTI_SELECT)).unwrap();
    let written = first.multi_select.to_json();
    let expected = parse(
        r#"{"options": [
            {"id": "5de29601-9c24-4b04-8629-0bca891c5120", "name": "Duc Loi Market", "color": "blue"},
            {"id": "385890b8-fe15-421b-b214-b02959b0f8d9", "name": "Rainbow Grocery", "color": "gray"},
            {"id": "72ac0a6c-9e00-4e8c-80c5-720e4373e0b9", "name": "Nijiya Market", "color": "purple"},
            {"id": "9556a8f7-f4b0-4e11-b277-f0af1f8c9490", "name": "Gus's Community Market", "color": "yellow"}
        ]}"#,
    );
    let items = match (written.get("options"), expected.get("options")) {
        (Some(Json::Array(w)), Some(Json::Array(e))) => (w, e),
        _ => panic!(),
    };
    assert_eq!(items.0.len(), 4);
    for i in 0..4 {
        for key in ["id", "name", "color"] {
            assert_eq!(items.0[i].get(key), items.1[i].get(key));
        }
    }
    let again =
        notionrs::database::properties::multi_select::DatabaseMultiSelectOptionProperty::from_json(
            &written,
        )
        .unwrap();
    assert_eq!(again, first.multi_select);
}

#[test]
fn database_property_elides_read_only_fields_on_write() {
    let property = DatabaseProperty::from_json(&parse(MULTI_SELECT)).unwrap();
    assert_eq!(property.discriminator(), "multi_select");
    let written = property.to_json();
    assert_eq!(written.get("type"), Some(&text("multi_select")));
    assert!(written.get("multi_select").is_some());
    assert_eq!(written.get("id"), None);
    assert_eq!(written.get("name"), None);
    assert_eq!(written.get("description"), None);
    let again = DatabaseProperty::from_json(&written).unwrap();
    match (&property, &again) {
        (DatabaseProperty::MultiSelect(read), DatabaseProperty::MultiSelect(sent)) => {
            assert_eq!(sent.id, None);
            assert_eq!(sent.name, "");
            assert_eq!(sent.description, None);
            assert_eq!(sent.multi_select, read.multi_select);
        }
        _ => panic!(),
    }
    assert_eq!(again.to_json(), written);
}

#[test]
fn created_by_is_written_as_an_empty_payload() {
    let property = DatabaseCreatedByProperty::default().name("Creator").description("who");
    assert_eq!(property.name, "Creator");
    assert_eq!(property.description, Some("who".to_string()));
    assert_eq!(
        property.to_json(),
        Json::Object(vec![member("created_by", Json::Object(vec![]))])
    );
    let family = DatabaseProperty::CreatedBy(property);
    assert_eq!(
        family.to_json(),
        Json::Object(vec![
            member("type", text("created_by")),
            member("created_by", Json::Object(vec![])),
        ])
    );
}

#[test]
fn unknown_discriminator_is_refused() {
    let block = BlockType::from_json(&parse(r#"{"type": "hologram", "hologram": {}}"#));
    assert_eq!(
        block,
        Err(Error::UnknownVariant {
            family: "block".to_string(),
            discriminator: Some("hologram".to_string()),
        })
    );
    let absent = BlockType::from_json(&parse(r#"{"pdf": {}}"#));
    assert_eq!(absent, Err(Error::UnknownVariant { family: "block".to_string(), discriminator: None }));
    let not_text = DatabaseProperty::from_json(&parse(r#"{"type": 7, "name": "x"}"#));
    assert_eq!(not_text, Err(Error::UnknownVariant {
        family: "database_property".to_string(),
        discriminator: None,
    }));
    let file = File::from_json(&parse(r#"{"type": "upload", "upload": {}}"#));
    assert_eq!(
        file,
        Err(Error::UnknownVariant {
            family: "file".to_string(),
            discriminator: Some("upload".to_string()),
        })
    );
    let span = RichText::from_json(&parse(r#"{"type": "mention", "mention": {}}"#));
    assert_eq!(
        span,
        Err(Error::UnknownVariant {
            family: "rich_text".to_string(),
            discriminator: Some("mention".to_string()),
        })
    );
}

#[test]
fn missing_required_field_is_refused() {
    let no_payload = DatabaseCreatedByProperty::from_json(&parse(r#"{"name": "a"}"#));
    assert_eq!(
        no_payload,
        Err(Error::MissingField { field: "created_by".to_string() })
    );
    let no_url = File::from_json(&parse(r#"{"type": "external", "external": {}}"#));
    assert_eq!(no_url, Err(Error::MissingField { field: "url".to_string() }));
    let no_file = File::from_json(&parse(r#"{"type": "file", "external": {"url": "u"}}"#));
    assert_eq!(no_file, Err(Error::MissingField { field: "file".to_string() }));
    let no_content = RichText::from_json(&parse(r#"{"type": "text", "text": {}}"#));
    assert_eq!(
        no_content,
        Err(Error::MissingField { field: "content".to_string() })
    );
    let no_name = Select::from_json(&parse(r#"{"id": "a", "color": "red"}"#));
    assert_eq!(no_name, Err(Error::MissingField { field: "name".to_string() }));
    let no_options = DatabaseMultiSelectProperty::from_json(&parse(
        r#"{"name": "a", "multi_select": {}}"#,
    ));
    assert_eq!(
        no_options,
        Err(Error::MissingField { field: "options".to_string() })
    );
    let no_pdf = PdfBlock::from_json(&parse(r#"{}"#));
    assert_eq!(no_pdf, Err(Error::MissingField { field: "pdf".to_string() }));
}

#[test]
fn unknown_sibling_fields_are_ignored() {
    let plain = parse(r#"{"name": "Tag", "color": "red"}"#);
    let noisy = parse(
        r#"{"zeta": [1, 2.5, {"a": null}], "name": "Tag", "added_later": true, "color": "red", "description": 12}"#,
    );
    assert_eq!(Select::from_json(&plain), Select::from_json(&noisy));
    assert_eq!(
        Select::from_json(&noisy),
        Ok(Select { id: None, name: "Tag".to_string(), color: SelectColor::Red })
    );
}

#[test]
fn value_outside_the_palette_is_refused() {
    let select = Select::from_json(&parse(r#"{"name": "Tag", "color": "teal"}"#));
    assert_eq!(
        select,
        Err(Error::InvalidEnumValue { field: "color".to_string(), received: "teal".to_string() })
    );
    let background = Select::from_json(&parse(r#"{"name": "Tag", "color": "red_background"}"#));
    assert_eq!(
        background,
        Err(Error::InvalidEnumValue {
            field: "color".to_string(),
            received: "red_background".to_string()
        })
    );
    let paragraph =
        ParagraphBlock::from_json(&parse(r#"{"rich_text": [], "color": "Blue"}"#));
    assert_eq!(
        paragraph,
        Err(Error::InvalidEnumValue { field: "color".to_string(), received: "Blue".to_string() })
    );
}

#[test]
fn value_of_another_shape_is_refused() {
    let select = Select::from_json(&parse(r#"{"name": 5}"#));
    assert_eq!(select, Err(Error::InvalidType { field: "name".to_string() }));
    let null_name = Select::from_json(&parse(r#"{"name": null}"#));
    assert_eq!(null_name, Err(Error::InvalidType { field: "name".to_string() }));
    let flag = RichTextAnnotations::from_json(&parse(r#"{"bold": "yes"}"#));
    assert_eq!(flag, Err(Error::InvalidType { field: "bold".to_string() }));
    let caption = File::from_json(&parse(
        r#"{"type": "external", "external": {"url": "u"}, "caption": {}}"#,
    ));
    assert_eq!(caption, Err(Error::InvalidType { field: "caption".to_string() }));
}

#[test]
fn absent_and_null_optional_fields_are_left_unset() {
    let select = Select::from_json(&parse(r#"{"id": null, "name": "Tag"}"#)).unwrap();
    assert_eq!(select.id, None);
    assert_eq!(select.color, SelectColor::Default);
    let span = RichText::from_json(&parse(
        r#"{"type": "text", "text": {"content": "hi", "link": null}}"#,
    ))
    .unwrap();
    assert_eq!(span.link, None);
    assert_eq!(span.plain_text, None);
    assert_eq!(span.annotations, RichTextAnnotations::default());
}

#[test]
fn rich_text_is_written_without_its_plain_text() {
    let json_data = r#"
        {
            "type": "text",
            "text": {"content": "Some words", "link": {"url": "https://example.com/"}},
            "annotations": {
                "bold": true, "italic": false, "strikethrough": false,
                "underline": true, "code": false, "color": "green_background"
            },
            "plain_text": "Some words",
            "href": "https://example.com/"
        }"#;
    let span = RichText::from_json(&parse(json_data)).unwrap();
    assert_eq!(span.content, "Some words");
    assert_eq!(span.link, Some("https://example.com/".to_string()));
    assert_eq!(span.plain_text, Some("Some words".to_string()));
    assert!(span.annotations.bold && span.annotations.underline);
    assert!(!span.annotations.italic && !span.annotations.code);
    assert_eq!(span.annotations.color, Color::GreenBackground);

    let written = span.to_json();
    assert_eq!(written.get("plain_text"), None);
    assert_eq!(written.get("href"), None);
    assert_eq!(written.get("type"), Some(&text("text")));
    let read = parse(json_data);
    assert_eq!(written.get("text"), read.get("text"));
    let annotations = written.get("annotations").unwrap();
    for key in ["bold", "italic", "strikethrough", "underline", "code", "color"] {
        assert_eq!(annotations.get(key), read.get("annotations").unwrap().get(key));
    }

    let again = RichText::from_json(&written).unwrap();
    assert_eq!(again, RichText { plain_text: None, ..span });
}

#[test]
fn external_file_round_trips() {
    let file = File::External(notionrs::others::file::FileExternal {
        external: notionrs::others::file::FileExternalParameter {
            url: "https://example.com/a.pdf".to_string(),
        },
        caption: Some(vec![RichText::from("one"), RichText::from("two")]),
        name: Some("a.pdf".to_string()),
    });
    let written = file.to_json();
    assert_eq!(written.get("type"), Some(&text("external")));
    assert_eq!(
        written.get("external"),
        Some(&Json::Object(vec![member("url", text("https://example.com/a.pdf"))]))
    );
    assert_eq!(written.get("name"), Some(&text("a.pdf")));
    assert_eq!(File::from_json(&written), Ok(file));
}

#[test]
fn hosted_file_is_written_without_its_address() {
    let json_data = r#"
        {
            "type": "file",
            "file": {"url": "https://files.test/x", "expiry_time": "2024-08-20T11:07:14.256Z"},
            "name": "x"
        }"#;
    let file = File::from_json(&parse(json_data)).unwrap();
    assert_eq!(file.discriminator(), "file");
    let written = file.to_json();
    assert_eq!(
        written,
        Json::Object(vec![
            member("type", text("file")),
            member("file", Json::Object(vec![])),
            member("name", text("x")),
        ])
    );
    match File::from_json(&written).unwrap() {
        File::File(sent) => {
            assert_eq!(sent.file.url(), "");
            assert_eq!(sent.file.expiry_time(), "");
            assert_eq!(sent.name, Some("x".to_string()));
            assert_eq!(sent.caption, None);
        }
        File::External(_) => panic!(),
    }
}

#[test]
fn fields_of_the_service_may_be_absent_when_read() {
    let column = DatabaseCreatedByProperty::from_json(&parse(r#"{"created_by": {}}"#)).unwrap();
    assert_eq!(column, DatabaseCreatedByProperty::default());
    let wrong = DatabaseCreatedByProperty::from_json(&parse(r#"{"name": 1, "created_by": {}}"#));
    assert_eq!(wrong, Err(Error::InvalidType { field: "name".to_string() }));
}

#[test]
fn block_is_written_under_the_discriminator_of_its_variant() {
    let pdf = PdfBlock::from("https://example.com/a.pdf").build();
    assert_eq!(pdf.discriminator(), "pdf");
    let written = pdf.to_json();
    assert_eq!(written.get("type"), Some(&text("pdf")));
    assert!(written.get("pdf").is_some());
    assert_eq!(written.get("paragraph"), None);
    assert_eq!(BlockType::from_json(&written), Ok(pdf));

    let paragraph = ParagraphBlock::from("Hello").color(Color::Blue).build();
    assert_eq!(paragraph.discriminator(), "paragraph");
    let written = paragraph.to_json();
    assert_eq!(written.get("type"), Some(&text("paragraph")));
    assert!(written.get("paragraph").is_some());
    assert_eq!(written.get("pdf"), None);
    assert_eq!(BlockType::from_json(&written), Ok(paragraph));
}

#[test]
fn block_payload_is_read_under_its_discriminator() {
    let mismatched = parse(
        r#"{"type": "paragraph", "pdf": {"type": "external", "external": {"url": "u"}}}"#,
    );
    assert_eq!(
        BlockType::from_json(&mismatched),
        Err(Error::MissingField { field: "paragraph".to_string() })
    );
}

#[test]
fn first_member_of_a_key_is_the_one_found() {
    let doc = Json::Object(vec![
        member("a", text("first")),
        member("b", Json::Bool(true)),
        member("a", text("second")),
    ]);
    assert_eq!(doc.get("a"), Some(&text("first")));
    assert_eq!(doc.get("b"), Some(&Json::Bool(true)));
    assert_eq!(doc.get("c"), None);
    assert_eq!(text("a").get("a"), None);
    assert_eq!(Json::Array(vec![]).get("a"), None);
}

#[test]
fn colours_are_named_and_found_by_name() {
    assert_eq!(Color::parse("default"), Some(Color::Default));
    assert_eq!(Color::parse("purple_background"), Some(Color::PurpleBackground));
    assert_eq!(Color::parse("default_background"), None);
    assert_eq!(Color::parse(""), None);
    assert_eq!(Color::OrangeBackground.name(), "orange_background");
    assert_eq!(Color::parse(Color::Pink.name()), Some(Color::Pink));
    assert_eq!(SelectColor::parse("brown"), Some(SelectColor::Brown));
    assert_eq!(SelectColor::parse("brown "), None);
    assert_eq!(SelectColor::Red.name(), "red");
    assert_eq!(SelectColor::default(), SelectColor::Default);
    assert_eq!(Color::default(), Color::Default);
}

#[test]
fn error_kinds_are_named() {
    assert_eq!(Error::UnknownVariant {
        family: "block".to_string(),
        discriminator: None,
    }.kind(), "UnknownVariant");
    assert_eq!(Error::MissingField { field: "a".to_string() }.kind(), "MissingField");
    assert_eq!(Error::InvalidType { field: "a".to_string() }.kind(), "InvalidType");
    assert_eq!(
        Error::InvalidEnumValue { field: "a".to_string(), received: "b".to_string() }.kind(),
        "InvalidEnumValue"
    );
    assert_eq!(
        Error::PaginationCycle { cursor: "c".to_string() }.kind(),
        "PaginationCycle"
    );
}

#[test]
fn texts_are_compared_by_their_characters() {
    assert!(notionrs::text::same_text("type", "type"));
    assert!(notionrs::text::same_text("", ""));
    assert!(!notionrs::text::same_text("type", "typo"));
    assert!(!notionrs::text::same_text("type", "types"));
    assert!(notionrs::text::same_text("caf\u{e9}", "caf\u{e9}"));
    assert!(!notionrs::text::same_text("caf\u{e9}", "cafe"));
}

#[test]
fn errors_are_put_in_words() {
    assert_eq!(
        Error::UnknownVariant {
            family: "block".to_string(),
            discriminator: Some("hologram".to_string())
        }
        .message(),
        "UnknownVariant: block: hologram"
    );
    assert_eq!(
        Error::UnknownVariant { family: "file".to_string(), discriminator: None }.message(),
        "UnknownVariant: file"
    );
    assert_eq!(
        Error::MissingField { field: "name".to_string() }.message(),
        "MissingField: name"
    );
    assert_eq!(
        Error::InvalidType { field: "bold".to_string() }.message(),
        "InvalidType: bold"
    );
    assert_eq!(
        Error::InvalidEnumValue { field: "color".to_string(), received: "teal".to_string() }
            .message(),
        "InvalidEnumValue: color: teal"
    );
    assert_eq!(
        Error::PaginationCycle { cursor: "abc".to_string() }.message(),
        "PaginationCycle: abc"
    );
}
