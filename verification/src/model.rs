//! Entity types and the specification-level semantics of the repository:
//! what a tenant-scoped lookup returns, what a changeset does to a record,
//! what a delete removes and what a listing page contains.

use vstd::prelude::*;

verus! {

/// A stored book. `user_id` is the owning tenant; `author_id` references an
/// `Author` row held by an external collaborator; `price` is nullable.
#[derive(Clone, Debug, PartialEq)]
pub struct Book {
    pub id: i32,
    pub user_id: i32,
    pub author_id: i32,
    pub name: String,
    pub price: Option<i32>,
}

/// An author row, consumed here only as an id-to-display-name mapping.
#[derive(Clone, Debug, PartialEq)]
pub struct Author {
    pub id: i32,
    pub display_name: String,
}

/// A found book together with its author's resolved display name.
#[derive(Clone, Debug, PartialEq)]
pub struct BookWithAuthorName {
    pub book: Book,
    pub author_name: String,
}

/// A creation or partial-update payload: a field left `None` means
/// "leave unchanged" on update, and "not supplied" on creation.
#[derive(Clone, Debug, PartialEq)]
pub struct NewBook {
    pub user_id: Option<i32>,
    pub name: Option<String>,
    pub author_id: Option<i32>,
    pub price: Option<i32>,
}

/// One page of a tenant's books.
#[derive(Clone, Debug, PartialEq)]
pub struct ListOfBooks(pub Vec<Book>);

/// The outcomes an operation can report. `NotFound` and `StorageError` are
/// distinct, and a book whose author row is missing at lookup time surfaces
/// as `AuthorUnresolved` rather than `NotFound`.
#[derive(Clone, Copy, Debug, PartialEq, Eq, Structural)]
pub enum RepoError {
    NotFound,
    AuthorUnresolved,
    StorageError,
}

/// The scoped match: a row is visible to a tenant only when the ownership
/// predicate holds in conjunction with the primary-key match.
pub open spec fn book_matches(b: Book, tenant_id: i32, book_id: i32) -> bool {
    b.user_id == tenant_id && b.id == book_id
}

/// First row that the tenant-scoped query matches, in storage order.
pub open spec fn lookup_book(books: Seq<Book>, tenant_id: i32, book_id: i32) -> Option<Book>
    decreases books.len(),
{
    if books.len() == 0 {
        None
    } else if book_matches(books[0], tenant_id, book_id) {
        Some(books[0])
    } else {
        lookup_book(books.drop_first(), tenant_id, book_id)
    }
}

/// First author row with the given id, in storage order.
pub open spec fn lookup_author(authors: Seq<Author>, author_id: i32) -> Option<Author>
    decreases authors.len(),
{
    if authors.len() == 0 {
        None
    } else if authors[0].id == author_id {
        Some(authors[0])
    } else {
        lookup_author(authors.drop_first(), author_id)
    }
}

/// Partial-update semantics: each present field overwrites the stored one,
/// each absent field leaves it unchanged. The primary key never changes.
pub open spec fn apply_changeset(b: Book, c: NewBook) -> Book {
    Book {
        id: b.id,
        user_id: match c.user_id {
            Some(u) => u,
            None => b.user_id,
        },
        author_id: match c.author_id {
            Some(a) => a,
            None => b.author_id,
        },
        name: match c.name {
            Some(n) => n,
            None => b.name,
        },
        price: match c.price {
            Some(p) => Some(p),
            None => b.price,
        },
    }
}

/// The stored relation after an update: every row the scoped query matches
/// has the changeset applied; every other row is untouched.
pub open spec fn updated_books(books: Seq<Book>, tenant_id: i32, book_id: i32, c: NewBook) -> Seq<
    Book,
> {
    Seq::new(
        books.len(),
        |i: int|
            if book_matches(books[i], tenant_id, book_id) {
                apply_changeset(books[i], c)
            } else {
                books[i]
            },
    )
}

/// The stored relation after a delete: the rows the scoped query matches are
/// gone, everything else keeps its relative order.
pub open spec fn books_without(books: Seq<Book>, tenant_id: i32, book_id: i32) -> Seq<Book>
    decreases books.len(),
{
    if books.len() == 0 {
        Seq::empty()
    } else if book_matches(books[0], tenant_id, book_id) {
        books_without(books.drop_first(), tenant_id, book_id)
    } else {
        seq![books[0]] + books_without(books.drop_first(), tenant_id, book_id)
    }
}

/// One listing page: the first rows owned by the tenant, in storage order,
/// truncated to `limit` entries.
pub open spec fn scoped_page(books: Seq<Book>, tenant_id: i32, limit: nat) -> Seq<Book>
    decreases books.len(),
{
    if books.len() == 0 || limit == 0 {
        Seq::empty()
    } else if books[0].user_id == tenant_id {
        seq![books[0]] + scoped_page(books.drop_first(), tenant_id, (limit - 1) as nat)
    } else {
        scoped_page(books.drop_first(), tenant_id, limit)
    }
}

/// Primary keys are unique across the whole relation.
pub open spec fn unique_ids(books: Seq<Book>) -> bool {
    forall|i: int, j: int|
        0 <= i < j < books.len() ==> (#[trigger] books[i].id) != (#[trigger] books[j].id)
}

/// A creation payload succeeds exactly when the non-nullable columns are
/// supplied and a fresh primary key can still be generated.
pub open spec fn creatable(c: NewBook, next_id: i32) -> bool {
    c.name is Some && c.author_id is Some && next_id < i32::MAX
}

} // verus!
