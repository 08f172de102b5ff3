use notionrs::error::Error;
use notionrs::pagination::{Failure, Mode, Next, Page, Paginator};

fn page(items: &[u32], has_more: bool, next_cursor: Option<&str>) -> Page<u32> {
    Page { items: items.to_vec(), has_more, next_cursor: next_cursor.map(|c| c.to_string()) }
}

/// Runs an enumeration against `pages`, handing out one page per fetch, and
/// records the cursor of every fetch.
fn run(
    mode: Mode,
    pages: Vec<Result<Page<u32>, String>>,
) -> (Result<(Vec<u32>, bool), Failure<String>>, Vec<Option<String>>) {
    let mut asked = Vec::new();
    let mut pages = pages.into_iter();
    let mut next = Paginator::<u32>::start::<String>(mode);
    loop {
        match next {
            Next::Fetch { engine, cursor } => {
                asked.push(cursor);
                let event = pages.next().expect("a fetch beyond the last page");
                next = engine.advance(event);
            }
            Next::Done { items, has_more } => return (Ok((items, has_more)), asked),
            Next::Failed(failure) => return (Err(failure), asked),
        }
    }
}

fn three_pages() -> Vec<Result<Page<u32>, String>> {
    vec![
        Ok(page(&[1, 2], true, Some("a"))),
        Ok(page(&[3, 4], true, Some("b"))),
        Ok(page(&[5], false, None)),
    ]
}

#[test]
fn recursive_mode_yields_every_item_in_page_order() {
    let (result, asked) = run(Mode::Recursive, three_pages());
    match result {
        Ok((items, has_more)) => {
            assert_eq!(items, vec![1, 2, 3, 4, 5]);
            assert!(!has_more);
        }
        Err(_) => panic!(),
    }
    assert_eq!(asked, vec![None, Some("a".to_string()), Some("b".to_string())]);
}

#[test]
fn first_page_mode_yields_one_page_and_says_that_more_exist() {
    let (result, asked) = run(Mode::FirstPage, three_pages());
    match result {
        Ok((items, has_more)) => {
            assert_eq!(items, vec![1, 2]);
            assert!(has_more);
        }
        Err(_) => panic!(),
    }
    assert_eq!(asked, vec![None]);
}

#[test]
fn repeated_cursor_ends_the_enumeration() {
    let (result, asked) = run(
        Mode::Recursive,
        vec![
            Ok(page(&[1, 2], true, Some("a"))),
            Ok(page(&[3, 4], true, Some("a"))),
            Ok(page(&[5], false, None)),
        ],
    );
    match result {
        Err(Failure::Rejected(e)) => {
            assert_eq!(e, Error::PaginationCycle { cursor: "a".to_string() })
        }
        _ => panic!(),
    }
    assert_eq!(asked, vec![None, Some("a".to_string())]);
}

#[test]
fn cursor_seen_before_the_last_one_is_followed() {
    let (result, asked) = run(
        Mode::Recursive,
        vec![
            Ok(page(&[1], true, Some("a"))),
            Ok(page(&[2], true, Some("b"))),
            Ok(page(&[3], true, Some("a"))),
            Ok(page(&[4], false, None)),
        ],
    );
    match result {
        Ok((items, _)) => assert_eq!(items, vec![1, 2, 3, 4]),
        Err(_) => panic!(),
    }
    assert_eq!(asked.len(), 4);
}

#[test]
fn failed_fetch_ends_the_enumeration_with_its_error() {
    let (result, asked) = run(
        Mode::Recursive,
        vec![Ok(page(&[1, 2], true, Some("a"))), Err("timeout".to_string())],
    );
    match result {
        Err(Failure::Collaborator(e)) => assert_eq!(e, "timeout"),
        _ => panic!(),
    }
    assert_eq!(asked.len(), 2);
    let (first, _) = run(Mode::FirstPage, vec![Err("denied".to_string())]);
    match first {
        Err(Failure::Collaborator(e)) => assert_eq!(e, "denied"),
        _ => panic!(),
    }
}

#[test]
fn page_that_promises_more_without_a_cursor_is_refused() {
    let (result, _) = run(Mode::Recursive, vec![Ok(page(&[1], true, None))]);
    match result {
        Err(Failure::Rejected(e)) => {
            assert_eq!(e, Error::MissingField { field: "next_cursor".to_string() })
        }
        _ => panic!(),
    }
}

#[test]
fn single_empty_page_yields_nothing() {
    let (result, asked) = run(Mode::Recursive, vec![Ok(page(&[], false, None))]);
    match result {
        Ok((items, has_more)) => {
            assert!(items.is_empty());
            assert!(!has_more);
        }
        Err(_) => panic!(),
    }
    assert_eq!(asked, vec![None]);
}

#[test]
fn cursor_of_a_last_page_is_not_looked_at() {
    let (result, _) = run(
        Mode::Recursive,
        vec![Ok(page(&[1], true, Some("a"))), Ok(page(&[2], false, Some("a")))],
    );
    match result {
        Ok((items, _)) => assert_eq!(items, vec![1, 2]),
        Err(_) => panic!(),
    }
}
