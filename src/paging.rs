//! Draining a paginated listing of the asset module: ask for the first page,
//! then for the page after each continuation key, until no key is left.
use vstd::prelude::*;

verus! {

/// Most pages one listing may take; a module that keeps sending continuation
/// keys past this is treated as malformed.
pub const MAX_PAGES: u64 = 10000;

/// One page of a listing, as the asset module returns it.
#[derive(Debug, Clone, PartialEq, Eq)]
pub struct Page<T> {
    pub items: Vec<T>,
    /// Where the next page starts; absent or empty on the last page.
    pub next_key: Option<String>,
    /// The total the module reported, if it did.
    pub total: Option<u64>,
}

/// A whole listing: the items of all its pages in the order they came, the
/// pagination of the last page, and how many pages were asked for.
#[derive(Debug, Clone, PartialEq, Eq)]
pub struct Drained<T> {
    pub items: Vec<T>,
    pub next_key: Option<String>,
    pub total: Option<u64>,
    pub rounds: u64,
}

/// Why a listing could not be drained.
#[derive(Debug, Clone, PartialEq, Eq)]
pub enum DrainError<E> {
    /// The module refused a page; its error is passed on unchanged.
    Module(E),
    /// The module was still sending continuation keys after `MAX_PAGES` pages.
    TooManyPages,
}

/// A continuation key that asks for another page: present and not empty.
pub open spec fn continues(key: Option<String>) -> bool {
    key matches Some(k) && k@.len() > 0
}

/// The cursor sent for the page at `i`: none for the first, the previous
/// page's key for every other.
pub open spec fn cursor_for<T>(pages: Seq<Page<T>>, i: int) -> Option<String> {
    if i == 0 {
        None
    } else {
        pages[i - 1].next_key
    }
}

/// The items of `pages`, page after page, each in its own order.
pub open spec fn flatten<T>(pages: Seq<Page<T>>) -> Seq<T>
    decreases pages.len(),
{
    if pages.len() == 0 {
        Seq::empty()
    } else {
        flatten(pages.drop_last()) + pages.last().items@
    }
}

/// `pages` are answers that `send` may give in turn: the first asked for with
/// no cursor, each other one with the key of the page before it, and each but
/// the last asking for more.
pub open spec fn is_run<T, E, F: Fn(Option<String>) -> Result<Page<T>, E>>(
    send: F,
    pages: Seq<Page<T>>,
) -> bool {
    &&& forall|i: int|
        0 <= i < pages.len() ==> #[trigger] send.ensures(
            (cursor_for(pages, i),),
            Ok::<Page<T>, E>(pages[i]),
        )
    &&& forall|i: int| 0 <= i < pages.len() - 1 ==> continues(#[trigger] pages[i].next_key)
}

/// Whether `key` asks for another page.
pub fn has_more(key: &Option<String>) -> (r: bool)
    ensures
        r == continues(*key),
{
    match key {
        Some(k) => !k.as_str().is_empty(),
        None => false,
    }
}

/// Drains a listing through `send`, which asks the module for the page at a
/// cursor. Pages are asked for one at a time, each with the key of the page
/// before, until a page comes without a continuation key; their items are
/// kept in the order they came, none dropped or reordered. A refused page
/// ends the listing with the module's error, and so does a module that still
/// asks for more after `MAX_PAGES` pages.
pub fn fetch_all<T, E, F: Fn(Option<String>) -> Result<Page<T>, E>>(send: F) -> (r: Result<
    Drained<T>,
    DrainError<E>,
>)
    requires
        forall|c: Option<String>| send.requires((c,)),
    ensures
        match r {
            Ok(d) => exists|pages: Seq<Page<T>>|
                #[trigger] is_run(send, pages) && pages.len() == d.rounds && 1 <= d.rounds
                    <= MAX_PAGES && !continues(pages.last().next_key) && d.items@ == flatten(
                    pages,
                ) && d.next_key == pages.last().next_key && d.total == pages.last().total,
            Err(DrainError::Module(e)) => exists|c: Option<String>|
                #[trigger] send.ensures((c,), Err::<Page<T>, E>(e)),
            Err(DrainError::TooManyPages) => exists|pages: Seq<Page<T>>|
                #[trigger] is_run(send, pages) && pages.len() == MAX_PAGES && continues(
                    pages.last().next_key,
                ),
        },
{
    let mut items: Vec<T> = Vec::new();
    let mut cursor: Option<String> = None;
    let mut rounds: u64 = 0;
    let ghost mut pages: Seq<Page<T>> = Seq::empty();
    loop
        invariant
            forall|c: Option<String>| send.requires((c,)),
            rounds == pages.len(),
            rounds < MAX_PAGES,
            is_run(send, pages),
            items@ == flatten(pages),
            cursor == cursor_for(pages, rounds as int),
            rounds > 0 ==> continues(pages.last().next_key),
        decreases MAX_PAGES - rounds,
    {
        let ghost sent = cursor;
        let answer = send(cursor);
        let page = match answer {
            Ok(p) => p,
            Err(e) => {
                assert(send.ensures((sent,), Err::<Page<T>, E>(e)));
                let refused: Result<Drained<T>, DrainError<E>> = Err(DrainError::Module(e));
                assert(refused matches Err(DrainError::Module(m)) && m == e);
                return refused;
            },
        };
        let ghost before = pages;
        proof {
            pages = pages.push(page);
            assert(pages.drop_last() =~= before);
            assert(flatten(pages) == flatten(before) + page.items@);
            assert forall|i: int| 0 <= i < pages.len() implies #[trigger] send.ensures(
                (cursor_for(pages, i),),
                Ok::<Page<T>, E>(pages[i]),
            ) by {
                if i < before.len() {
                    assert(pages[i] == before[i]);
                    assert(cursor_for(pages, i) == cursor_for(before, i));
                }
            }
            assert forall|i: int| 0 <= i < pages.len() - 1 implies continues(
                #[trigger] pages[i].next_key,
            ) by {
                if i < before.len() - 1 {
                    assert(pages[i] == before[i]);
                }
            }
        }
        rounds = rounds + 1;
        let Page { items: mut got, next_key, total } = page;
        items.append(&mut got);
        if !has_more(&next_key) {
            assert(is_run(send, pages));
            return Ok(Drained { items, next_key, total, rounds });
        }
        if rounds == MAX_PAGES {
            assert(is_run(send, pages));
            return Err(DrainError::TooManyPages);
        }
        cursor = next_key;
    }
}

} // verus!
