//! The book as the preprocessor sees it: its items in the order a depth-first
//! walk visits them.

use vstd::prelude::*;

verus! {

/// A content-bearing item of the book.
#[derive(Clone, Debug, PartialEq, Eq)]
pub struct Chapter {
    pub name: String,
    pub content: String,
    /// Where the chapter's source lies, relative to the book's source directory.
    pub path: Option<String>,
}

/// One item of the book.
#[derive(Clone, Debug, PartialEq, Eq)]
pub enum BookItem {
    Chapter(Chapter),
    Separator,
    PartTitle(String),
}

/// A book: every item, nested chapters included, in depth-first order.
#[derive(Clone, Debug, PartialEq, Eq)]
pub struct Book {
    pub items: Vec<BookItem>,
}

/// Whether `after` is the chapter `before` with its content replaced by what
/// `convert` gave for it, or, for any other item, `before` itself.
pub open spec fn converted_item<F: Fn(&Chapter) -> Result<String, String>>(
    convert: F,
    before: BookItem,
    after: BookItem,
) -> bool {
    match before {
        BookItem::Chapter(c) => after is Chapter && after->Chapter_0.name == c.name
            && after->Chapter_0.path == c.path && convert.ensures(
            (&c,),
            Ok(after->Chapter_0.content),
        ),
        _ => after == before,
    }
}

/// Whether `convert` succeeds on the chapter `item`, where it is one.
pub open spec fn converts<F: Fn(&Chapter) -> Result<String, String>>(
    convert: F,
    item: BookItem,
) -> bool {
    item is Chapter ==> exists|t: String| convert.ensures((&item->Chapter_0,), Ok(t))
}

/// Whether a run of `convert` over the items `before` may end in `r`: either
/// every item converted in place, or a failure on the first chapter that
/// `convert` failed on, with every chapter before it converted.
pub open spec fn run_outcome<F: Fn(&Chapter) -> Result<String, String>>(
    convert: F,
    before: Seq<BookItem>,
    r: Result<Seq<BookItem>, String>,
) -> bool {
    match r {
        Ok(after) => after.len() == before.len() && forall|i: int|
            0 <= i < before.len() ==> #[trigger] converted_item(convert, before[i], after[i]),
        Err(e) => exists|k: int|
            0 <= k < before.len() && #[trigger] before[k] is Chapter && convert.ensures(
                (&before[k]->Chapter_0,),
                Err(e),
            ) && forall|j: int| 0 <= j < k ==> #[trigger] converts(convert, before[j]),
    }
}

/// Items that are not chapters come out of a run as they went in.
pub proof fn lemma_non_chapters_unchanged<F: Fn(&Chapter) -> Result<String, String>>(
    convert: F,
    before: Seq<BookItem>,
    after: Seq<BookItem>,
    i: int,
)
    requires
        run_outcome(convert, before, Ok(after)),
        0 <= i < before.len(),
        !(before[i] is Chapter),
    ensures
        after[i] == before[i],
{
    assert(converted_item(convert, before[i], after[i]));
}

/// A book without chapters comes out of a run unchanged, and the run
/// cannot fail.
pub proof fn lemma_chapterless_book_unchanged<F: Fn(&Chapter) -> Result<String, String>>(
    convert: F,
    before: Seq<BookItem>,
    r: Result<Seq<BookItem>, String>,
)
    requires
        run_outcome(convert, before, r),
        forall|i: int| 0 <= i < before.len() ==> !(before[i] is Chapter),
    ensures
        r == Ok::<Seq<BookItem>, String>(before),
{
    match r {
        Ok(after) => {
            assert forall|i: int| 0 <= i < before.len() implies after[i] == before[i] by {
                assert(converted_item(convert, before[i], after[i]));
            }
            assert(after =~= before);
        },
        Err(e) => {
            let k = choose|k: int|
                0 <= k < before.len() && #[trigger] before[k] is Chapter && convert.ensures(
                    (&before[k]->Chapter_0,),
                    Err(e),
                ) && forall|j: int| 0 <= j < k ==> #[trigger] converts(convert, before[j]);
            assert(!(before[k] is Chapter));
        },
    }
}

fn clone_path(p: &Option<String>) -> (r: Option<String>)
    ensures
        r == *p,
{
    match p {
        Some(s) => Some(s.clone()),
        None => None,
    }
}

/// The book with each chapter's content replaced by what `convert` gives for
/// that chapter, visiting the items in order; the first failure of `convert`
/// ends the run and is returned, and no partly converted book comes out.
pub fn convert_chapters<F: Fn(&Chapter) -> Result<String, String>>(book: &Book, convert: F) -> (r:
    Result<Book, String>)
    requires
        forall|c: &Chapter| #[trigger] convert.requires((c,)),
    ensures
        match r {
            Ok(b) => run_outcome(convert, book.items@, Ok(b.items@)),
            Err(e) => run_outcome(convert, book.items@, Err(e)),
        },
{
    let n = book.items.len();
    let mut out: Vec<BookItem> = Vec::new();
    let mut i: usize = 0;
    while i < n
        invariant
            n == book.items@.len(),
            i <= n,
            out@.len() == i,
            forall|c: &Chapter| #[trigger] convert.requires((c,)),
            forall|j: int| 0 <= j < i ==> #[trigger] converted_item(convert, book.items@[j], out@[j]),
            forall|j: int| 0 <= j < i ==> #[trigger] converts(convert, book.items@[j]),
        decreases n - i,
    {
        let item = &book.items[i];
        match item {
            BookItem::Chapter(c) => {
                match convert(c) {
                    Ok(text) => {
                        let ghost t = text;
                        out.push(
                            BookItem::Chapter(
                                Chapter {
                                    name: c.name.clone(),
                                    content: text,
                                    path: clone_path(&c.path),
                                },
                            ),
                        );
                        assert(converts(convert, book.items@[i as int]));
                    },
                    Err(e) => {
                        assert(book.items@[i as int] is Chapter);
                        return Err(e);
                    },
                }
            },
            BookItem::Separator => {
                out.push(BookItem::Separator);
            },
            BookItem::PartTitle(t) => {
                out.push(BookItem::PartTitle(t.clone()));
            },
        }
        assert(converted_item(convert, book.items@[i as int], out@[i as int]));
        i = i + 1;
    }
    Ok(Book { items: out })
}

} // verus!
