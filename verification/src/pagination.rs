use crate::error::{Error, ErrorView};
use crate::text::same_text;
use vstd::prelude::*;

verus! {

/// How far an enumeration goes.
#[derive(Clone, Copy, Debug, PartialEq, Eq, Structural)]
pub enum Mode {
    /// One page, and whether more pages exist.
    FirstPage,
    /// Every page, until one says that no more exist.
    Recursive,
}

/// What one fetch hands back.
#[derive(Clone, Debug, PartialEq, Eq)]
pub struct Page<T> {
    /// The items of the page, in the order of the service.
    pub items: Vec<T>,
    /// Whether more pages exist.
    pub has_more: bool,
    /// Where the next page starts, if more pages exist.
    pub next_cursor: Option<String>,
}

/// The mathematical value of a [`Page`].
pub struct PageView<T> {
    pub items: Seq<T>,
    pub has_more: bool,
    pub next_cursor: Option<Seq<char>>,
}

impl<T> View for Page<T> {
    type V = PageView<T>;

    open spec fn view(&self) -> PageView<T> {
        PageView {
            items: self.items@,
            has_more: self.has_more,
            next_cursor: self.next_cursor.deep_view(),
        }
    }
}

/// An enumeration under way: what has been fetched so far, and the cursor
/// that the page now awaited was asked for with.
#[derive(Clone, Debug, PartialEq, Eq)]
pub struct Paginator<T> {
    pub mode: Mode,
    pub cursor: Option<String>,
    pub items: Vec<T>,
}

/// The mathematical value of a [`Paginator`].
pub struct PaginatorView<T> {
    pub mode: Mode,
    pub cursor: Option<Seq<char>>,
    pub items: Seq<T>,
}

impl<T> View for Paginator<T> {
    type V = PaginatorView<T>;

    open spec fn view(&self) -> PaginatorView<T> {
        PaginatorView { mode: self.mode, cursor: self.cursor.deep_view(), items: self.items@ }
    }
}

/// Why an enumeration failed.
#[derive(Clone, Debug, PartialEq, Eq)]
pub enum Failure<E> {
    /// A page could not be followed.
    Rejected(Error),
    /// A fetch failed; the error is the fetch's own.
    Collaborator(E),
}

/// The mathematical value of a [`Failure`].
pub enum FailureView<E> {
    Rejected(ErrorView),
    Collaborator(E),
}

impl<E> View for Failure<E> {
    type V = FailureView<E>;

    open spec fn view(&self) -> FailureView<E> {
        match self {
            Failure::Rejected(e) => FailureView::Rejected(e@),
            Failure::Collaborator(e) => FailureView::Collaborator(*e),
        }
    }
}

/// What an enumeration asks of its caller next.
#[derive(Clone, Debug, PartialEq, Eq)]
pub enum Next<T, E> {
    /// Fetch the page at `cursor`, the first page where it is `None`, and
    /// hand what comes back to [`Paginator::advance`] of `engine`.
    Fetch { engine: Paginator<T>, cursor: Option<String> },
    /// The enumeration is over: `items` is what it yields, and `has_more`
    /// says whether pages were left unfetched.
    Done { items: Vec<T>, has_more: bool },
    /// The enumeration failed. What had been fetched is dropped.
    Failed(Failure<E>),
}

/// The mathematical value of a [`Next`].
pub enum NextView<T, E> {
    Fetch { engine: PaginatorView<T>, cursor: Option<Seq<char>> },
    Done { items: Seq<T>, has_more: bool },
    Failed(FailureView<E>),
}

impl<T, E> View for Next<T, E> {
    type V = NextView<T, E>;

    open spec fn view(&self) -> NextView<T, E> {
        match self {
            Next::Fetch { engine, cursor } => NextView::Fetch {
                engine: engine@,
                cursor: cursor.deep_view(),
            },
            Next::Done { items, has_more } => NextView::Done { items: items@, has_more: *has_more },
            Next::Failed(f) => NextView::Failed(f@),
        }
    }
}

/// What happened to a fetch, as a value.
pub open spec fn event_view<T, E>(event: Result<Page<T>, E>) -> Result<PageView<T>, E> {
    match event {
        Ok(page) => Ok(page@),
        Err(e) => Err(e),
    }
}

/// An enumeration that has fetched nothing yet.
pub open spec fn fresh<T>(mode: Mode) -> PaginatorView<T> {
    PaginatorView { mode, cursor: None, items: Seq::empty() }
}

/// What an enumeration does with a page.
///
/// In the mode of one page it is over with the page's items, and says
/// what the page says of more pages. Otherwise it puts the page's items
/// behind those that it has; it is over where the page says that no more
/// exist; it fails where the page names no next cursor, or names the
/// cursor that the page itself was asked for with; and else it asks for
/// the page at the next cursor.
pub open spec fn follow<T, E>(engine: PaginatorView<T>, page: PageView<T>) -> NextView<T, E> {
    if engine.mode == Mode::FirstPage {
        NextView::Done { items: page.items, has_more: page.has_more }
    } else if !page.has_more {
        NextView::Done { items: engine.items + page.items, has_more: false }
    } else {
        match page.next_cursor {
            None => NextView::Failed(
                FailureView::Rejected(ErrorView::MissingField { field: "next_cursor"@ }),
            ),
            Some(cursor) => if engine.cursor == Some(cursor) {
                NextView::Failed(FailureView::Rejected(ErrorView::PaginationCycle { cursor }))
            } else {
                NextView::Fetch {
                    engine: PaginatorView {
                        mode: engine.mode,
                        cursor: Some(cursor),
                        items: engine.items + page.items,
                    },
                    cursor: Some(cursor),
                }
            },
        }
    }
}

/// What an enumeration does with what happened to a fetch: it fails with
/// the fetch's error, or follows the page.
pub open spec fn react<T, E>(engine: PaginatorView<T>, event: Result<PageView<T>, E>) -> NextView<
    T,
    E,
> {
    match event {
        Err(e) => NextView::Failed(FailureView::Collaborator(e)),
        Ok(page) => follow(engine, page),
    }
}

/// Where an enumeration stands after the fetches that it asks for have
/// gone as `events` say, one after the other. Events behind the one that
/// ends the enumeration are not looked at.
pub open spec fn drive<T, E>(
    engine: PaginatorView<T>,
    events: Seq<Result<PageView<T>, E>>,
) -> NextView<T, E>
    decreases events.len(),
{
    if events.len() == 0 {
        NextView::Fetch { engine, cursor: engine.cursor }
    } else {
        match react(engine, events[0]) {
            NextView::Fetch { engine: onward, .. } => drive(onward, events.drop_first()),
            over => over,
        }
    }
}

/// The items of `pages`, page after page.
pub open spec fn all_items<T>(pages: Seq<PageView<T>>) -> Seq<T>
    decreases pages.len(),
{
    if pages.len() == 0 {
        Seq::empty()
    } else {
        pages[0].items + all_items(pages.drop_first())
    }
}

/// The fetches that hand back `pages`, one each.
pub open spec fn fetched<T, E>(pages: Seq<PageView<T>>) -> Seq<Result<PageView<T>, E>> {
    Seq::new(pages.len(), |i: int| Ok(pages[i]))
}

/// The cursor that the page at `i` was asked for with, where the first
/// page was asked for with `first`.
pub open spec fn asked_with<T>(first: Option<Seq<char>>, pages: Seq<PageView<T>>, i: int) -> Option<
    Seq<char>,
> {
    if i == 0 {
        first
    } else {
        pages[i - 1].next_cursor
    }
}

/// Whether the page at `i` leads on: it says that more exist, and names a
/// cursor other than the one that it was asked for with.
pub open spec fn leads_on<T>(first: Option<Seq<char>>, pages: Seq<PageView<T>>, i: int) -> bool {
    &&& pages[i].has_more
    &&& pages[i].next_cursor is Some
    &&& pages[i].next_cursor != asked_with(first, pages, i)
}

impl<T> Paginator<T> {
    /// Starts an enumeration: the first page is to be fetched, with no
    /// cursor.
    pub fn start<E>(mode: Mode) -> (r: Next<T, E>)
        ensures
            r@ == (NextView::<T, E>::Fetch { engine: fresh(mode), cursor: None }),
    {
        Next::Fetch { engine: Paginator { mode, cursor: None, items: Vec::new() }, cursor: None }
    }

    /// Takes what happened to the fetch that the enumeration asked for,
    /// and says what is next. The enumeration is used up by this: what is
    /// next holds the enumeration to go on with, if it goes on.
    pub fn advance<E>(self, event: Result<Page<T>, E>) -> (r: Next<T, E>)
        ensures
            r@ == react(self@, event_view(event)),
    {
        let mut page = match event {
            Err(e) => { return Next::Failed(Failure::Collaborator(e)); },
            Ok(page) => page,
        };
        match self.mode {
            Mode::FirstPage => {
                return Next::Done { items: page.items, has_more: page.has_more };
            },
            Mode::Recursive => {},
        }
        let mut items = self.items;
        items.append(&mut page.items);
        if !page.has_more {
            return Next::Done { items, has_more: false };
        }
        let cursor = match page.next_cursor {
            None => {
                return Next::Failed(
                    Failure::Rejected(Error::MissingField { field: "next_cursor".to_owned() }),
                );
            },
            Some(cursor) => cursor,
        };
        let repeated = match &self.cursor {
            Some(asked) => same_text(asked.as_str(), cursor.as_str()),
            None => false,
        };
        if repeated {
            Next::Failed(Failure::Rejected(Error::PaginationCycle { cursor }))
        } else {
            let again = cursor.clone();
            Next::Fetch {
                engine: Paginator { mode: self.mode, cursor: Some(cursor), items },
                cursor: Some(again),
            }
        }
    }
}

/// An enumeration of every page yields the items of all pages, in the
/// order of the pages and, within a page, in the order of the service:
/// where every page but the last leads on, and the last says that no more
/// exist, the enumeration is over after the last page with the items that
/// it had, and behind them those of the pages.
pub proof fn lemma_recursive_yields_all<T, E>(engine: PaginatorView<T>, pages: Seq<PageView<T>>)
    requires
        engine.mode == Mode::Recursive,
        pages.len() >= 1,
        forall|i: int| 0 <= i < pages.len() - 1 ==> leads_on(engine.cursor, pages, i),
        !pages.last().has_more,
    ensures
        drive::<T, E>(engine, fetched(pages)) == (NextView::<T, E>::Done {
            items: engine.items + all_items(pages),
            has_more: false,
        }),
    decreases pages.len(),
{
    let events = fetched::<T, E>(pages);
    let rest = pages.drop_first();
    assert(events.drop_first() =~= fetched::<T, E>(rest));
    if pages.len() == 1 {
        assert(all_items(rest) =~= Seq::empty());
        assert(engine.items + all_items(pages) =~= engine.items + pages[0].items);
    } else {
        assert(leads_on(engine.cursor, pages, 0));
        let onward = PaginatorView {
            mode: engine.mode,
            cursor: pages[0].next_cursor,
            items: engine.items + pages[0].items,
        };
        assert forall|i: int| 0 <= i < rest.len() - 1 implies leads_on(onward.cursor, rest, i) by {
            assert(leads_on(engine.cursor, pages, i + 1));
        }
        lemma_recursive_yields_all::<T, E>(onward, rest);
        assert(onward.items + all_items(rest) =~= engine.items + all_items(pages));
    }
}

/// An enumeration of one page yields the items of the first page and says
/// what that page says of more pages, whatever comes behind it.
pub proof fn lemma_first_page_yields_one<T, E>(pages: Seq<PageView<T>>)
    requires
        pages.len() >= 1,
    ensures
        drive::<T, E>(fresh(Mode::FirstPage), fetched(pages)) == (NextView::<T, E>::Done {
            items: pages[0].items,
            has_more: pages[0].has_more,
        }),
{
}

/// An enumeration of every page fails on the first page that says that
/// more exist and names the cursor that it was asked for with itself:
/// where every page before the one at `at` leads on, the enumeration
/// fails at that page, whatever comes behind it.
pub proof fn lemma_repeated_cursor_fails<T, E>(
    engine: PaginatorView<T>,
    pages: Seq<PageView<T>>,
    at: int,
)
    requires
        engine.mode == Mode::Recursive,
        0 <= at < pages.len(),
        forall|i: int| 0 <= i < at ==> leads_on(engine.cursor, pages, i),
        pages[at].has_more,
        pages[at].next_cursor is Some,
        pages[at].next_cursor == asked_with(engine.cursor, pages, at),
    ensures
        drive::<T, E>(engine, fetched(pages)) == NextView::<T, E>::Failed(
            FailureView::Rejected(
                ErrorView::PaginationCycle { cursor: pages[at].next_cursor->Some_0 },
            ),
        ),
    decreases at,
{
    let events = fetched::<T, E>(pages);
    let rest = pages.drop_first();
    assert(events.drop_first() =~= fetched::<T, E>(rest));
    if at > 0 {
        assert(leads_on(engine.cursor, pages, 0));
        let onward = PaginatorView {
            mode: engine.mode,
            cursor: pages[0].next_cursor,
            items: engine.items + pages[0].items,
        };
        assert forall|i: int| 0 <= i < at - 1 implies leads_on(onward.cursor, rest, i) by {
            assert(leads_on(engine.cursor, pages, i + 1));
        }
        lemma_repeated_cursor_fails::<T, E>(onward, rest, at - 1);
    }
}

/// An enumeration of every page fails with the error of the first fetch
/// that fails, and yields no item: where every page before the fetch at
/// `at` leads on, and that fetch fails with `error`, the enumeration fails
/// with `error`.
pub proof fn lemma_failed_fetch_fails<T, E>(
    engine: PaginatorView<T>,
    pages: Seq<PageView<T>>,
    at: int,
    error: E,
    events: Seq<Result<PageView<T>, E>>,
)
    requires
        engine.mode == Mode::Recursive,
        0 <= at <= pages.len(),
        at < events.len(),
        forall|i: int| 0 <= i < at ==> leads_on(engine.cursor, pages, i),
        forall|i: int| 0 <= i < at ==> events[i] == Ok::<PageView<T>, E>(pages[i]),
        events[at] == Err::<PageView<T>, E>(error),
    ensures
        drive(engine, events) == NextView::<T, E>::Failed(FailureView::Collaborator(error)),
    decreases at,
{
    if at > 0 {
        assert(leads_on(engine.cursor, pages, 0));
        let rest = pages.drop_first();
        let onward = PaginatorView {
            mode: engine.mode,
            cursor: pages[0].next_cursor,
            items: engine.items + pages[0].items,
        };
        assert forall|i: int| 0 <= i < at - 1 implies leads_on(onward.cursor, rest, i) by {
            assert(leads_on(engine.cursor, pages, i + 1));
        }
        lemma_failed_fetch_fails(onward, rest, at - 1, error, events.drop_first());
    }
}

} // verus!
