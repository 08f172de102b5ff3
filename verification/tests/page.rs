use notionrs::block::BlockType;
use notionrs::database::properties::DatabaseProperty;
use notionrs::error::Error;
use notionrs::json::Json;
use notionrs::others::date_time::{DateTime, LocalDateTime};
use notionrs::others::file::File;
use notionrs::others::rich_text::RichText;
use notionrs::others::select::Select;
use notionrs::others::user::{Bot, Person, User};
use notionrs::page::date::PageDateProperty;
use notionrs::page::people::PagePeopleProperty;
use notionrs::page::properties::PageProperties;
use notionrs::page::PageProperty;
use notionrs::registry::{Field, Visibility};

fn tree(value: &serde_json::Value) -> Json {
    match value {
        serde_json::Value::Null => Json::Null,
        serde_json::Value::Bool(b) => Json::Bool(*b),
        serde_json::Value::Number(n) => Json::Number(n.to_string()),
        serde_json::Value::String(s) => Json::Str(s.clone()),
        serde_json::Value::Array(items) => Json::Array(items.iter().map(tree).collect()),
        serde_json::Value::Object(members) => {
            Json::Object(members.iter().map(|(k, v)| (k.clone(), tree(v))).collect())
        }
    }
}

fn parse(text: &str) -> Json {
    tree(&serde_json::from_str::<serde_json::Value>(text).unwrap())
}

fn text(value: &str) -> Json {
    Json::Str(value.to_string())
}

fn moment(text: &str) -> DateTime {
    DateTime::from_wire(text).unwrap()
}

const PERSON: &str = r#"
    {
        "object": "user",
        "id": "d40e767c-d7af-4b18-a86d-55c61f1e39a4",
        "type": "person",
        "person": {"email": "avo@example.org"},
        "name": "Avocado Lovelace",
        "avatar_url": "https://example.org/avo.jpg"
    }"#;

const BOT: &str = r#"
    {
        "object": "user",
        "id": "9188c6a5-7381-452f-b3dc-d4865aa89bdf",
        "type": "bot",
        "bot": {"owner": {"type": "workspace", "workspace": true}, "workspace_name": "Here"},
        "name": "Test Integration"
    }"#;

#[test]
fn human_and_automated_users_are_told_apart() {
    let person = User::from_json(&parse(PERSON)).unwrap();
    assert_eq!(
        person,
        User::Person(Person {
            id: "d40e767c-d7af-4b18-a86d-55c61f1e39a4".to_string(),
            name: Some("Avocado Lovelace".to_string()),
            avatar_url: Some("https://example.org/avo.jpg".to_string()),
            email: Some("avo@example.org".to_string()),
        })
    );
    assert_eq!(person.discriminator(), "person");
    let bot = User::from_json(&parse(BOT)).unwrap();
    assert_eq!(
        bot,
        User::Bot(Bot {
            id: "9188c6a5-7381-452f-b3dc-d4865aa89bdf".to_string(),
            name: Some("Test Integration".to_string()),
        })
    );
    assert_eq!(bot.discriminator(), "bot");
    assert_eq!(bot.id(), "9188c6a5-7381-452f-b3dc-d4865aa89bdf");
}

#[test]
fn user_is_written_by_its_identifier_alone() {
    let person = User::from_json(&parse(PERSON)).unwrap();
    let written = person.to_json();
    assert_eq!(
        written,
        Json::Object(vec![
            ("type".to_string(), text("person")),
            ("person".to_string(), Json::Object(vec![])),
            ("id".to_string(), text("d40e767c-d7af-4b18-a86d-55c61f1e39a4")),
        ])
    );
    assert_eq!(
        User::from_json(&written),
        Ok(User::person("d40e767c-d7af-4b18-a86d-55c61f1e39a4"))
    );
    let bot = User::from_json(&parse(BOT)).unwrap();
    assert_eq!(bot.to_json().get("type"), Some(&text("bot")));
    assert_eq!(bot.to_json().get("name"), None);
}

#[test]
fn user_without_identifier_or_of_unknown_kind_is_refused() {
    assert_eq!(
        User::from_json(&parse(r#"{"type": "person", "name": "x"}"#)),
        Err(Error::MissingField { field: "id".to_string() })
    );
    assert_eq!(
        User::from_json(&parse(r#"{"type": "group", "id": "x"}"#)),
        Err(Error::UnknownVariant {
            family: "user".to_string(),
            discriminator: Some("group".to_string()),
        })
    );
    assert_eq!(
        User::from_json(&parse(r#"{"id": "x"}"#)),
        Err(Error::UnknownVariant { family: "user".to_string(), discriminator: None })
    );
    assert_eq!(
        User::from_json(&parse(r#"{"type": "person", "id": "x", "person": {"email": 3}}"#)),
        Err(Error::InvalidType { field: "email".to_string() })
    );
}

#[test]
fn people_are_read_and_written_in_order() {
    let doc = parse(&format!(
        r#"{{"id": "%3AqP", "type": "people", "people": [{}, {}]}}"#,
        PERSON, BOT
    ));
    let people = PagePeopleProperty::from_json(&doc).unwrap();
    assert_eq!(people.id, Some("%3AqP".to_string()));
    assert_eq!(people.people.len(), 2);
    assert_eq!(people.people[0].discriminator(), "person");
    assert_eq!(people.people[1].discriminator(), "bot");
    let written = people.to_json();
    assert_eq!(written.get("id"), None);
    let again = PagePeopleProperty::from_json(&written).unwrap();
    assert_eq!(again.id, None);
    assert_eq!(again.people.len(), 2);
    assert_eq!(again.people[0].id(), people.people[0].id());
    assert_eq!(again.people[1].id(), people.people[1].id());
    assert_eq!(
        PagePeopleProperty::from_json(&parse(r#"{"id": "a"}"#)),
        Err(Error::MissingField { field: "people".to_string() })
    );
    let built = PagePeopleProperty::default().people(vec![User::person("user-a")]);
    assert_eq!(built.people, vec![User::person("user-a")]);
}

#[test]
fn page_property_is_read_by_its_discriminator() {
    let date = PageProperty::from_json(&parse(
        r#"{"id": "a", "type": "date", "date": {"start": "2024-08-20T18:07:14.256+07:00", "end": null}}"#,
    ))
    .unwrap();
    assert_eq!(date.discriminator(), "date");
    match &date {
        PageProperty::Date(p) => {
            let start = p.date.as_ref().unwrap().start.unwrap();
            assert_eq!(start.epoch_millis(), 1724152034256);
        }
        _ => panic!(),
    }
    let written = date.to_json();
    assert_eq!(written.get("type"), Some(&text("date")));
    assert_eq!(written.get("id"), None);
    assert_eq!(
        written.get("date").unwrap().get("start"),
        Some(&text("2024-08-20T18:07:14.256+07:00"))
    );
    let people = PageProperty::from_json(&parse(r#"{"type": "people", "people": []}"#)).unwrap();
    assert_eq!(people, PageProperty::People(PagePeopleProperty::default()));
    assert_eq!(
        PageProperty::from_json(&parse(r#"{"type": "rollup", "rollup": {}}"#)),
        Err(Error::UnknownVariant {
            family: "page_property".to_string(),
            discriminator: Some("rollup".to_string()),
        })
    );
}

#[test]
fn last_write_under_a_name_wins() {
    let first = PageProperty::Date(PageDateProperty::from(moment("2024-01-01T00:00:00Z")));
    let second = PageProperty::Date(PageDateProperty::from(moment("2024-06-01T00:00:00Z")));
    let people = PageProperty::People(PagePeopleProperty::default());
    let map = PageProperties::new();
    assert_eq!(map.len(), 0);
    assert!(!map.contains("Created"));
    let map = map.insert("Created", first.clone()).insert("Assignee", people.clone());
    assert_eq!(map.len(), 2);
    assert_eq!(map.get("Created"), Some(&first));
    let map = map.insert("Created", second.clone());
    assert_eq!(map.len(), 2);
    assert_eq!(map.get("Created"), Some(&second));
    assert_eq!(map.get("Assignee"), Some(&people));
    assert_eq!(map.get("created"), None);
    assert!(map.contains("Assignee"));
    assert_eq!(map.clone(), map);
}

#[test]
fn properties_of_a_record_round_trip() {
    let map = PageProperties::new()
        .insert(
            "Created",
            PageProperty::Date(PageDateProperty::from(moment("2024-01-01T00:00:00.000+09:00"))),
        )
        .insert(
            "Assignee",
            PageProperty::People(PagePeopleProperty::default().people(vec![User::person("u1")])),
        );
    let written = map.to_json();
    match &written {
        Json::Object(members) => {
            assert_eq!(members.len(), 2);
            assert_eq!(members[0].0, "Created");
            assert_eq!(members[1].0, "Assignee");
        }
        _ => panic!(),
    }
    assert_eq!(PageProperties::from_json(&written), Ok(map));
}

#[test]
fn later_member_of_a_repeated_name_is_kept() {
    let doc = Json::Object(vec![
        ("A".to_string(), parse(r#"{"type": "people", "people": []}"#)),
        ("B".to_string(), parse(r#"{"type": "date", "date": null}"#)),
        ("A".to_string(), parse(r#"{"type": "date", "date": null}"#)),
    ]);
    let map = PageProperties::from_json(&doc).unwrap();
    assert_eq!(map.len(), 2);
    assert_eq!(map.get("A"), Some(&PageProperty::Date(PageDateProperty::default())));
    assert_eq!(
        PageProperties::from_json(&Json::Array(vec![])),
        Err(Error::InvalidType { field: "properties".to_string() })
    );
    let broken = Json::Object(vec![
        ("A".to_string(), parse(r#"{"type": "people", "people": []}"#)),
        ("B".to_string(), parse(r#"{"type": "nothing"}"#)),
        ("C".to_string(), parse(r#"{"type": "people"}"#)),
    ]);
    assert_eq!(
        PageProperties::from_json(&broken),
        Err(Error::UnknownVariant {
            family: "page_property".to_string(),
            discriminator: Some("nothing".to_string()),
        })
    );
}

fn sendable(table: &[Field], key: &str) -> bool {
    table.iter().any(|f| f.key == key && f.visibility != Visibility::ReadOnly)
}

fn keys(doc: &Json) -> Vec<String> {
    match doc {
        Json::Object(members) => members.iter().map(|(k, _)| k.clone()).collect(),
        _ => panic!(),
    }
}

#[test]
fn documents_are_written_with_sendable_keys_of_their_tables() {
    let select = Select {
        id: Some("x".to_string()),
        name: "n".to_string(),
        color: Default::default(),
    };
    for key in keys(&select.to_json()) {
        assert!(sendable(&Select::fields(), &key));
    }
    let span = RichText { plain_text: Some("p".to_string()), ..RichText::from("p") };
    for key in keys(&span.to_json()) {
        assert!(sendable(&RichText::fields(), &key));
    }
    let file = File::external("u");
    for key in keys(&file.to_json()) {
        assert!(sendable(&File::fields(), &key));
    }
    let user = User::from_json(&parse(PERSON)).unwrap();
    for key in keys(&user.to_json()) {
        assert!(sendable(&User::fields(), &key));
    }
    let block = notionrs::block::pdf::PdfBlock::from("u").build();
    for key in keys(&block.to_json()) {
        assert!(sendable(&BlockType::fields(), &key));
    }
    let column = DatabaseProperty::MultiSelect(Default::default());
    for key in keys(&column.to_json()) {
        assert!(sendable(&DatabaseProperty::fields(), &key));
    }
    let date = PageProperty::Date(PageDateProperty {
        id: Some("i".to_string()),
        date: None,
    });
    for key in keys(&date.to_json()) {
        assert!(sendable(&PageProperty::fields(), &key));
    }
}

#[test]
fn tables_partition_fields_by_who_writes_them() {
    let table = DatabaseProperty::fields();
    let read_only: Vec<&str> = table
        .iter()
        .filter(|f| f.visibility == Visibility::ReadOnly)
        .map(|f| f.key)
        .collect();
    assert_eq!(read_only, vec!["id", "name", "description"]);
    let required: Vec<&str> = table.iter().filter(|f| f.required).map(|f| f.key).collect();
    assert_eq!(required, vec!["type"]);
    assert_eq!(
        RichText::fields()[3],
        Field { key: "plain_text", visibility: Visibility::ReadOnly, required: false }
    );
    assert_eq!(notionrs::others::file::FileFileParameter::fields().len(), 2);
    assert_eq!(
        LocalDateTime { year: 1, month: 1, day: 1, hour: 0, minute: 0, second: 0, millisecond: 0 }
            .is_valid(),
        true
    );
}
